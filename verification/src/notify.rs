use vstd::prelude::*;

verus! {

/// A message shown in the status line.
#[derive(Debug, PartialEq)]
pub struct Notification {
    pub text: String,
    pub error: bool,
}

/// A message shown until a deadline (a point on the caller's
/// millisecond clock) passes.
#[derive(Debug, PartialEq)]
pub struct TimedNotification {
    pub text: String,
    pub error: bool,
    pub expires_at: u64,
}

/// The status line at the bottom of the screen: at most one persistent
/// message, plus any number of timed messages awaiting expiry.
#[derive(Debug, PartialEq)]
pub struct NotifWin {
    pub n_row: u16,
    pub n_col: u16,
    pub persistent: Option<Notification>,
    pub timed: Vec<TimedNotification>,
}

impl NotifWin {
    pub fn new(n_row: u16, n_col: u16) -> (r: NotifWin)
        ensures
            r.n_row == n_row,
            r.n_col == n_col,
            r.persistent is None,
            r.timed@ =~= Seq::<TimedNotification>::empty(),
    {
        NotifWin { n_row, n_col, persistent: None, timed: Vec::new() }
    }

    /// Show `text` until `now + duration` on the caller's clock
    /// (milliseconds); the deadline saturates at the top of the range.
    pub fn timed_notif(&mut self, text: String, duration: u64, error: bool, now: u64)
        ensures
            final(self).n_row == old(self).n_row,
            final(self).n_col == old(self).n_col,
            final(self).persistent == old(self).persistent,
            final(self).timed@ =~= old(self).timed@.push(TimedNotification {
                text,
                error,
                expires_at: if now + duration <= u64::MAX {
                    (now + duration) as u64
                } else {
                    u64::MAX
                },
            }),
    {
        let expires_at: u64 = if duration <= u64::MAX - now {
            now + duration
        } else {
            u64::MAX
        };
        self.timed.push(TimedNotification { text, error, expires_at });
    }

    /// Drop every timed message whose deadline has passed, keeping the
    /// rest in order.
    pub fn check_notifs(&mut self, now: u64)
        ensures
            final(self).n_row == old(self).n_row,
            final(self).n_col == old(self).n_col,
            final(self).persistent == old(self).persistent,
            final(self).timed@ =~= old(self).timed@.filter(|t: TimedNotification| t.expires_at > now),
    {
        let mut kept: Vec<TimedNotification> = Vec::new();
        let mut i: usize = 0;
        proof {
            assert(self.timed@.take(0int).filter(|t: TimedNotification| t.expires_at > now)
                =~= Seq::<TimedNotification>::empty());
        }
        while i < self.timed.len()
            invariant
                i <= self.timed@.len(),
                kept@ =~= self.timed@.take(i as int).filter(
                    |t: TimedNotification| t.expires_at > now,
                ),
            decreases self.timed@.len() - i,
        {
            proof {
                assert(self.timed@.take(i + 1int).drop_last() =~= self.timed@.take(i as int));
                reveal_with_fuel(Seq::filter, 2);
                assert(self.timed@.take(i + 1int).last() == self.timed@[i as int]);
            }
            let t = &self.timed[i];
            if t.expires_at > now {
                let copied = TimedNotification {
                    text: t.text.clone(),
                    error: t.error,
                    expires_at: t.expires_at,
                };
                assert(copied == self.timed@[i as int]);
                kept.push(copied);
            }
            i += 1;
        }
        proof {
            assert(self.timed@.take(self.timed@.len() as int) =~= self.timed@);
        }
        self.timed = kept;
    }

    /// Show `text` until it is cleared explicitly.
    pub fn persistent_notif(&mut self, text: String, error: bool)
        ensures
            *final(self) == (NotifWin {
                persistent: Some(Notification { text, error }),
                ..*old(self)
            }),
    {
        self.persistent = Some(Notification { text, error });
    }

    /// Remove the persistent message, leaving timed ones alone.
    pub fn clear_persistent_notif(&mut self)
        ensures
            *final(self) == (NotifWin { persistent: None::<Notification>, ..*old(self) }),
    {
        self.persistent = None;
    }

    pub fn resize(&mut self, n_row: u16, n_col: u16)
        ensures
            *final(self) == (NotifWin { n_row, n_col, ..*old(self) }),
    {
        self.n_row = n_row;
        self.n_col = n_col;
    }
}

} // verus!
