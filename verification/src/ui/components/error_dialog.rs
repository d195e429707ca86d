use vstd::prelude::*;
use crate::clock::{elapsed_seconds, instant_now};
use crate::error::TwiggyError;
use crate::seqs::{keep_where, retain_flagged};

verus! {

/// A modal dialog that presents one error.
#[derive(Debug)]
pub struct ErrorDialog {
    pub error: TwiggyError,
    pub timestamp: std::time::Instant,
    pub show_details: bool,
    pub is_visible: bool,
}

impl ErrorDialog {
    /// A visible dialog for `error`, with its details folded.
    pub fn new(error: TwiggyError) -> (r: ErrorDialog)
        ensures
            r.error == error,
            !r.show_details,
            r.is_visible,
    {
        ErrorDialog { error, timestamp: instant_now(), show_details: false, is_visible: true }
    }

    /// Hides the dialog.
    pub fn dismiss(&mut self)
        ensures
            !final(self).is_visible,
            final(self).error == old(self).error,
            final(self).timestamp == old(self).timestamp,
            final(self).show_details == old(self).show_details,
    {
        self.is_visible = false;
    }

    /// The sign shown for the error of the dialog.
    pub fn icon(&self) -> (r: &'static str)
        ensures
            r@ == icon_of(self.error.spec_error_code()),
    {
        error_icon(self.error.error_code())
    }

    /// Whether the dialog is shown.
    pub fn is_visible(&self) -> (r: bool)
        ensures
            r == self.is_visible,
    {
        self.is_visible
    }
}

/// The sign shown for an error code: one for each of the first four groups
/// of a thousand codes from 1000 on, and another for every other code.
pub open spec fn icon_of(code: u32) -> Seq<char> {
    if 1000 <= code <= 1999 {
        "\u{1F527}"@
    } else if 2000 <= code <= 2999 {
        "\u{1F4C1}"@
    } else if 3000 <= code <= 3999 {
        "\u{2699}\u{FE0F}"@
    } else if 4000 <= code <= 4999 {
        "\u{1F5A5}\u{FE0F}"@
    } else {
        "\u{274C}"@
    }
}

/// The sign shown for an error code.
pub fn error_icon(code: u32) -> (r: &'static str)
    ensures
        r@ == icon_of(code),
{
    if 1000 <= code && code <= 1999 {
        "\u{1F527}"
    } else if 2000 <= code && code <= 2999 {
        "\u{1F4C1}"
    } else if 3000 <= code && code <= 3999 {
        "\u{2699}\u{FE0F}"
    } else if 4000 <= code && code <= 4999 {
        "\u{1F5A5}\u{FE0F}"
    } else {
        "\u{274C}"
    }
}

/// What the user did with an error dialog.
#[derive(Debug, Clone, Copy, PartialEq, Eq, Structural)]
pub enum ErrorDialogResponse {
    Unanswered,
    TryRecover,
    CopiedToClipboard,
    Dismissed,
}

/// The kind of a notification.
#[derive(Debug, Clone, Copy, PartialEq, Eq, Structural)]
pub enum NotificationType {
    Info,
    Warning,
    Error,
    Success,
}

/// A passing message, which may dismiss itself after some seconds.
#[derive(Debug)]
pub struct ErrorNotification {
    pub message: String,
    pub notification_type: NotificationType,
    pub timestamp: std::time::Instant,
    pub auto_dismiss_seconds: Option<u32>,
    pub is_visible: bool,
}

/// Whether a notification with this setting is due for dismissal once `elapsed`
/// seconds have passed.
pub open spec fn dismissal_due(auto_dismiss_seconds: Option<u32>, elapsed: u64) -> bool {
    match auto_dismiss_seconds {
        Some(limit) => elapsed >= limit as u64,
        None => false,
    }
}

impl ErrorNotification {
    /// A visible notification, stamped with the present moment.
    pub fn new(
        message: String,
        notification_type: NotificationType,
        auto_dismiss_seconds: Option<u32>,
    ) -> (r: ErrorNotification)
        ensures
            r.message == message,
            r.notification_type == notification_type,
            r.auto_dismiss_seconds == auto_dismiss_seconds,
            r.is_visible,
    {
        ErrorNotification {
            message,
            notification_type,
            timestamp: instant_now(),
            auto_dismiss_seconds,
            is_visible: true,
        }
    }

    /// Whether the notification is due for dismissal after `elapsed` whole seconds.
    pub fn is_due_after(&self, elapsed: u64) -> (r: bool)
        ensures
            r == dismissal_due(self.auto_dismiss_seconds, elapsed),
    {
        match self.auto_dismiss_seconds {
            Some(limit) => elapsed >= limit as u64,
            None => false,
        }
    }

    /// The seconds left before the notification dismisses itself, once
    /// `elapsed` seconds have passed; nothing for one that never does.
    pub fn remaining_after(&self, elapsed: u64) -> (r: Option<u64>)
        ensures
            r == match self.auto_dismiss_seconds {
                Some(limit) => Some(
                    if elapsed >= limit as u64 {
                        0u64
                    } else {
                        (limit as u64 - elapsed) as u64
                    },
                ),
                None => None,
            },
    {
        match self.auto_dismiss_seconds {
            Some(limit) => {
                let limit = limit as u64;
                if elapsed >= limit {
                    Some(0)
                } else {
                    Some(limit - elapsed)
                }
            },
            None => None,
        }
    }

    /// Whether the notification has outlived its time, by the clock.
    ///
    /// One that never dismisses itself has not; one with a time of zero has.
    pub fn should_auto_dismiss(&self) -> (r: bool)
        ensures
            exists|elapsed: u64| r == dismissal_due(self.auto_dismiss_seconds, elapsed),
            self.auto_dismiss_seconds is None ==> !r,
            self.auto_dismiss_seconds == Some(0u32) ==> r,
    {
        let elapsed = elapsed_seconds(&self.timestamp);
        let r = self.is_due_after(elapsed);
        assert(r == dismissal_due(self.auto_dismiss_seconds, elapsed));
        r
    }

    /// Hides the notification.
    pub fn dismiss(&mut self)
        ensures
            !final(self).is_visible,
            final(self).message == old(self).message,
            final(self).notification_type == old(self).notification_type,
            final(self).timestamp == old(self).timestamp,
            final(self).auto_dismiss_seconds == old(self).auto_dismiss_seconds,
    {
        self.is_visible = false;
    }
}

/// The notifications on screen, oldest first, never more than a maximum.
pub struct NotificationManager {
    notifications: Vec<ErrorNotification>,
    max_notifications: usize,
}

/// A queue after one more item has arrived: the oldest item leaves where the
/// queue would otherwise hold more than `max`.
pub open spec fn after_arrival<T>(queue: Seq<T>, item: T, max: int) -> Seq<T> {
    let grown = queue.push(item);
    if grown.len() > max {
        grown.subrange(1, grown.len() as int)
    } else {
        grown
    }
}

/// Whether `update` may keep a notification: it must be visible and must not be
/// due at once.
pub open spec fn may_stay(n: ErrorNotification) -> bool {
    n.is_visible && n.auto_dismiss_seconds != Some(0u32)
}

/// Whether `update` must keep a notification: it is visible and never dismisses
/// itself.
pub open spec fn must_stay(n: ErrorNotification) -> bool {
    n.is_visible && n.auto_dismiss_seconds is None
}

/// Whether `after` is what a sweep leaves of `before` when it keeps the items
/// flagged in `keep`: only items that may stay are kept, and every item that
/// must stay is.
pub open spec fn swept(
    before: Seq<ErrorNotification>,
    after: Seq<ErrorNotification>,
    keep: Seq<bool>,
) -> bool {
    &&& keep.len() == before.len()
    &&& after == keep_where(before, keep)
    &&& forall|i: int| 0 <= i < keep.len() ==> (#[trigger] keep[i] ==> may_stay(before[i]))
    &&& forall|i: int| 0 <= i < keep.len() ==> (must_stay(before[i]) ==> #[trigger] keep[i])
}

impl NotificationManager {
    /// The notifications held, oldest first.
    pub closed spec fn entries(&self) -> Seq<ErrorNotification> {
        self.notifications@
    }

    /// The most the manager holds after an arrival.
    pub closed spec fn capacity(&self) -> int {
        self.max_notifications as int
    }

    /// An empty manager that holds up to `max_notifications`.
    pub fn with_capacity(max_notifications: usize) -> (r: NotificationManager)
        ensures
            r.entries().len() == 0,
            r.capacity() == max_notifications,
    {
        NotificationManager { notifications: Vec::new(), max_notifications }
    }

    /// Adds a notification stamped with the present moment; the oldest one
    /// leaves where the queue would grow past its capacity.
    pub fn add_notification(
        &mut self,
        message: String,
        notification_type: NotificationType,
        auto_dismiss_seconds: Option<u32>,
    )
        requires
            old(self).entries().len() < usize::MAX,
        ensures
            final(self).capacity() == old(self).capacity(),
            exists|stamp: std::time::Instant|
                final(self).entries() == after_arrival(
                    old(self).entries(),
                    (ErrorNotification {
                        message,
                        notification_type,
                        timestamp: stamp,
                        auto_dismiss_seconds,
                        is_visible: true,
                    }),
                    old(self).capacity(),
                ),
    {
        let notification = ErrorNotification::new(message, notification_type, auto_dismiss_seconds);
        let ghost added = notification;
        self.notifications.push(notification);
        if self.notifications.len() > self.max_notifications {
            self.notifications.remove(0);
        }
        assert(self.notifications@ =~= after_arrival(
            old(self).entries(),
            added,
            old(self).capacity(),
        ));
        assert(added == (ErrorNotification {
            message,
            notification_type,
            timestamp: added.timestamp,
            auto_dismiss_seconds,
            is_visible: true,
        }));
    }

    /// Drops the notifications that are hidden or have outlived their time, by
    /// the clock, and keeps the others in their order.
    pub fn update(&mut self)
        ensures
            final(self).capacity() == old(self).capacity(),
            exists|keep: Seq<bool>| swept(old(self).entries(), final(self).entries(), keep),
    {
        let mut keep: Vec<bool> = Vec::new();
        let mut i: usize = 0;
        while i < self.notifications.len()
            invariant
                i <= self.notifications@.len(),
                keep@.len() == i,
                forall|j: int|
                    0 <= j < i ==> (#[trigger] keep@[j] ==> may_stay(self.notifications@[j])),
                forall|j: int|
                    0 <= j < i ==> (must_stay(self.notifications@[j]) ==> #[trigger] keep@[j]),
            decreases self.notifications@.len() - i,
        {
            let gone = self.notifications[i].should_auto_dismiss()
                || !self.notifications[i].is_visible;
            keep.push(!gone);
            i = i + 1;
        }
        retain_flagged(&mut self.notifications, &keep);
        assert(swept(old(self).entries(), self.entries(), keep@));
    }

    /// The notifications held, oldest first.
    pub fn notifications(&self) -> (r: &Vec<ErrorNotification>)
        ensures
            r@ == self.entries(),
    {
        &self.notifications
    }

    /// Hides the notification at a place, so that the next `update` drops it.
    /// A place past the end changes nothing.
    pub fn dismiss(&mut self, index: usize)
        ensures
            final(self).capacity() == old(self).capacity(),
            final(self).entries().len() == old(self).entries().len(),
            forall|i: int|
                0 <= i < old(self).entries().len() && i != index ==> final(self).entries()[i]
                    == old(self).entries()[i],
            index < old(self).entries().len() ==> final(self).entries()[index as int] == (
            ErrorNotification { is_visible: false, ..old(self).entries()[index as int] }),
    {
        if index < self.notifications.len() {
            self.notifications[index].is_visible = false;
        }
    }

    /// Removes every notification.
    pub fn clear_all(&mut self)
        ensures
            final(self).entries().len() == 0,
            final(self).capacity() == old(self).capacity(),
    {
        self.notifications.clear();
    }

    /// The number of notifications held.
    pub fn notification_count(&self) -> (r: usize)
        ensures
            r == self.entries().len(),
    {
        self.notifications.len()
    }
}

impl Default for NotificationManager {
    /// An empty manager that holds up to five notifications.
    fn default() -> (r: NotificationManager)
        ensures
            r.entries().len() == 0,
            r.capacity() == 5,
    {
        NotificationManager { notifications: Vec::new(), max_notifications: 5 }
    }
}

} // verus!
