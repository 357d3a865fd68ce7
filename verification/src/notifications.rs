//! Desktop notifications: the bounded store of received notifications, the
//! do-not-disturb rule, and the decisions of the notification server.

use vstd::prelude::*;
use vstd::std_specs::convert::FromSpecImpl;
use std::collections::VecDeque;
use std::time::SystemTime;

verus! {

#[verifier::external_type_specification]
#[verifier::external_body]
pub struct ExSystemTime(SystemTime);

/// The most notifications kept; the oldest one is dropped beyond it.
pub const MAX_NOTIFICATIONS: usize = 50;

/// Urgency level of a notification.
#[derive(Debug, Clone, Copy, PartialEq, Eq, Structural)]
pub enum Urgency {
    Low,
    Normal,
    Critical,
}

/// The urgency named by the `urgency` hint byte: 0 is low, 2 is critical,
/// anything else is normal.
pub open spec fn urgency_of(value: u8) -> Urgency {
    if value == 0 {
        Urgency::Low
    } else if value == 2 {
        Urgency::Critical
    } else {
        Urgency::Normal
    }
}

impl From<u8> for Urgency {
    fn from(value: u8) -> (u: Urgency) {
        if value == 0 {
            Urgency::Low
        } else if value == 2 {
            Urgency::Critical
        } else {
            Urgency::Normal
        }
    }
}

impl FromSpecImpl<u8> for Urgency {
    open spec fn obeys_from_spec() -> bool {
        true
    }

    open spec fn from_spec(v: u8) -> Urgency {
        urgency_of(v)
    }
}

/// A notification received over D-Bus.
#[derive(Debug)]
pub struct Notification {
    pub id: u32,
    pub app_name: String,
    pub icon: String,
    pub summary: String,
    pub body: String,
    pub urgency: Urgency,
    pub timestamp: SystemTime,
    pub actions: Vec<String>,
}

/// Copies a list of strings.
fn clone_strings(v: &Vec<String>) -> (r: Vec<String>)
    ensures
        r@ == v@,
{
    let mut r: Vec<String> = Vec::new();
    let mut i: usize = 0;
    while i < v.len()
        invariant
            i <= v.len(),
            r@ == v@.take(i as int),
        decreases v.len() - i,
    {
        r.push(v[i].clone());
        assert(r@ =~= v@.take(i + 1));
        i = i + 1;
    }
    assert(v@.take(v.len() as int) =~= v@);
    r
}

/// Whether `a` and `b` hold the same notification: equal fields, and the
/// same action strings.
pub open spec fn same_notification(a: Notification, b: Notification) -> bool {
    &&& a.id == b.id
    &&& a.app_name == b.app_name
    &&& a.icon == b.icon
    &&& a.summary == b.summary
    &&& a.body == b.body
    &&& a.urgency == b.urgency
    &&& a.timestamp == b.timestamp
    &&& a.actions@ == b.actions@
}

impl Clone for Notification {
    fn clone(&self) -> (r: Self)
        ensures
            same_notification(r, *self),
    {
        let r = Notification {
            id: self.id,
            app_name: self.app_name.clone(),
            icon: self.icon.clone(),
            summary: self.summary.clone(),
            body: self.body.clone(),
            urgency: self.urgency,
            timestamp: self.timestamp,
            actions: clone_strings(&self.actions),
        };
        r
    }
}

/// Events produced by the notification server.
#[derive(Debug)]
pub enum NotificationEvent {
    /// New notification received.
    Received(Notification),
    /// Notification closed or dismissed.
    Closed(u32),
    /// Action invoked on a notification.
    ActionInvoked(u32, String),
}

/// `n` carrying identifier `id`.
pub open spec fn stamped(n: Notification, id: u32) -> Notification {
    Notification { id, ..n }
}

/// The identifier that follows `id`, wrapping to 0 after `u32::MAX`.
pub open spec fn next_identifier(id: u32) -> u32 {
    if id == u32::MAX {
        0
    } else {
        (id + 1) as u32
    }
}

/// Whether `s` holds a notification with identifier `id`.
pub open spec fn holds_id(s: Seq<Notification>, id: u32) -> bool {
    exists|k: int| 0 <= k < s.len() && s[k].id == id
}

/// Whether `k` is the position of the first notification with identifier
/// `id` in `s`.
pub open spec fn first_with_id(s: Seq<Notification>, id: u32, k: int) -> bool {
    &&& 0 <= k < s.len()
    &&& s[k].id == id
    &&& forall|j: int| 0 <= j < k ==> s[j].id != id
}

/// Whether a notification of urgency `u` is shown: under do-not-disturb only
/// critical ones are.
pub open spec fn shown_under(dnd: bool, u: Urgency) -> bool {
    !dnd || u == Urgency::Critical
}

/// The bounded store of notifications, newest first.
#[derive(Debug)]
pub struct NotificationStorage {
    notifications: VecDeque<Notification>,
    next_id: u32,
    do_not_disturb: bool,
    sounds_enabled: bool,
}

impl NotificationStorage {
    /// At most [`MAX_NOTIFICATIONS`] notifications are stored.
    #[verifier::type_invariant]
    spec fn bounded(&self) -> bool {
        self.notifications@.len() <= MAX_NOTIFICATIONS
    }

    /// The stored notifications, newest first.
    pub closed spec fn stored(&self) -> Seq<Notification> {
        self.notifications@
    }

    /// The identifier given to the next added notification.
    pub closed spec fn upcoming_id(&self) -> u32 {
        self.next_id
    }

    /// Whether do-not-disturb is on.
    pub closed spec fn dnd(&self) -> bool {
        self.do_not_disturb
    }

    /// Whether notification sounds are on.
    pub closed spec fn sounds(&self) -> bool {
        self.sounds_enabled
    }

    /// Stores `notification` as the newest one, under the next identifier,
    /// and returns that identifier. When the store is full the oldest
    /// notification is dropped first.
    pub fn add(&mut self, notification: Notification) -> (id: u32)
        ensures
            id == old(self).upcoming_id(),
            final(self).upcoming_id() == next_identifier(old(self).upcoming_id()),
            final(self).stored() == seq![stamped(notification, id)] + (if old(
                self,
            ).stored().len() >= MAX_NOTIFICATIONS {
                old(self).stored().drop_last()
            } else {
                old(self).stored()
            }),
            final(self).stored().len() <= MAX_NOTIFICATIONS,
            final(self).dnd() == old(self).dnd(),
            final(self).sounds() == old(self).sounds(),
    {
        proof {
            use_type_invariant(&*self);
        }
        let mut notification = notification;
        let id = self.next_id;
        self.next_id = self.next_id.wrapping_add(1);
        notification.id = id;
        let mut queue = VecDeque::new();
        std::mem::swap(&mut queue, &mut self.notifications);
        if queue.len() >= MAX_NOTIFICATIONS {
            queue.pop_back();
        }
        queue.push_front(notification);
        self.notifications = queue;
        id
    }

    /// Removes the first notification with identifier `id` and returns it.
    pub fn remove(&mut self, id: u32) -> (r: Option<Notification>)
        ensures
            match r {
                Some(n) => exists|k: int|
                    first_with_id(old(self).stored(), id, k) && n == old(self).stored()[k]
                        && final(self).stored() == old(self).stored().remove(k),
                None => !holds_id(old(self).stored(), id) && final(self).stored() == old(
                    self,
                ).stored(),
            },
            final(self).upcoming_id() == old(self).upcoming_id(),
            final(self).dnd() == old(self).dnd(),
            final(self).sounds() == old(self).sounds(),
    {
        proof {
            use_type_invariant(&*self);
        }
        let mut i: usize = 0;
        while i < self.notifications.len()
            invariant
                i <= self.notifications@.len(),
                *self == *old(self),
                self.notifications@.len() <= MAX_NOTIFICATIONS,
                forall|j: int| 0 <= j < i ==> self.notifications@[j].id != id,
            decreases self.notifications.len() - i,
        {
            if self.notifications[i].id == id {
                let mut queue = VecDeque::new();
                std::mem::swap(&mut queue, &mut self.notifications);
                let ghost before = queue@;
                let r = queue.remove(i);
                assert(first_with_id(old(self).stored(), id, i as int));
                assert(before == old(self).stored());
                self.notifications = queue;
                return r;
            }
            i = i + 1;
        }
        None
    }

    /// Removes every notification.
    pub fn clear(&mut self)
        ensures
            final(self).stored().len() == 0,
            final(self).upcoming_id() == old(self).upcoming_id(),
            final(self).dnd() == old(self).dnd(),
            final(self).sounds() == old(self).sounds(),
    {
        self.notifications = VecDeque::new();
    }

    /// The stored notifications, newest first.
    pub fn get_all(&self) -> (r: &VecDeque<Notification>)
        ensures
            r@ == self.stored(),
    {
        &self.notifications
    }

    /// The number of stored notifications.
    pub fn unread_count(&self) -> (n: usize)
        ensures
            n == self.stored().len(),
            n <= MAX_NOTIFICATIONS,
    {
        proof {
            use_type_invariant(self);
        }
        self.notifications.len()
    }

    /// Turns do-not-disturb on or off.
    pub fn set_dnd(&mut self, enabled: bool)
        ensures
            final(self).dnd() == enabled,
            final(self).stored() == old(self).stored(),
            final(self).upcoming_id() == old(self).upcoming_id(),
            final(self).sounds() == old(self).sounds(),
    {
        proof {
            use_type_invariant(&*self);
        }
        self.do_not_disturb = enabled;
    }

    /// Whether do-not-disturb is on.
    pub fn is_dnd(&self) -> (b: bool)
        ensures
            b == self.dnd(),
    {
        self.do_not_disturb
    }

    /// Turns notification sounds on or off.
    pub fn set_sounds(&mut self, enabled: bool)
        ensures
            final(self).sounds() == enabled,
            final(self).stored() == old(self).stored(),
            final(self).upcoming_id() == old(self).upcoming_id(),
            final(self).dnd() == old(self).dnd(),
    {
        proof {
            use_type_invariant(&*self);
        }
        self.sounds_enabled = enabled;
    }

    /// Whether notification sounds are on.
    pub fn sounds_enabled(&self) -> (b: bool)
        ensures
            b == self.sounds(),
    {
        self.sounds_enabled
    }

    /// Whether a notification of `urgency` is shown: critical ones always,
    /// others only when do-not-disturb is off.
    pub fn should_show(&self, urgency: &Urgency) -> (b: bool)
        ensures
            b == shown_under(self.dnd(), *urgency),
    {
        if self.do_not_disturb {
            match urgency {
                Urgency::Critical => true,
                _ => false,
            }
        } else {
            true
        }
    }
}

impl Default for NotificationStorage {
    /// An empty store whose first identifier is 1, with do-not-disturb off
    /// and sounds on.
    fn default() -> (s: Self)
        ensures
            s.stored().len() == 0,
            s.upcoming_id() == 1,
            !s.dnd(),
            s.sounds(),
    {
        NotificationStorage {
            notifications: VecDeque::with_capacity(MAX_NOTIFICATIONS),
            next_id: 1,
            do_not_disturb: false,
            sounds_enabled: true,
        }
    }
}

/// What storing notification `n` under identifier `id` makes of the list
/// `before`: `n` first, then `before` less its oldest entry when full.
pub open spec fn after_add(before: Seq<Notification>, n: Notification, id: u32) -> Seq<Notification> {
    seq![stamped(n, id)] + (if before.len() >= MAX_NOTIFICATIONS {
        before.drop_last()
    } else {
        before
    })
}

/// Whether `after` is `before` less its first notification with identifier
/// `id` (and `before` itself when there is none).
pub open spec fn after_remove(before: Seq<Notification>, id: u32, after: Seq<Notification>) -> bool {
    ||| exists|k: int| first_with_id(before, id, k) && after == before.remove(k)
    ||| !holds_id(before, id) && after == before
}

/// Removing by the identifier that an add returned takes back exactly the
/// added notification, provided no stored notification already carried
/// that identifier: the list is then the one before the add, less the
/// entry that a full store dropped.
pub proof fn lemma_remove_undoes_add(before: Seq<Notification>, n: Notification, id: u32)
    requires
        !holds_id(before, id),
    ensures
        first_with_id(after_add(before, n, id), id, 0),
        after_add(before, n, id)[0] == stamped(n, id),
        after_add(before, n, id).remove(0) == (if before.len() >= MAX_NOTIFICATIONS {
            before.drop_last()
        } else {
            before
        }),
{
    let after = after_add(before, n, id);
    let rest = if before.len() >= MAX_NOTIFICATIONS {
        before.drop_last()
    } else {
        before
    };
    assert(after.remove(0) =~= rest);
}

/// The sound played for a notification of urgency `u`.
pub open spec fn sound_for(u: Urgency) -> Seq<char> {
    match u {
        Urgency::Critical => "message-new-urgent"@,
        Urgency::Normal => "message-new-instant"@,
        Urgency::Low => "message"@,
    }
}

/// The sounds follow the freedesktop sound theme: a critical notification
/// plays `message-new-urgent`, a normal one `message-new-instant`, a low one
/// `message`, so that each urgency sounds different.
pub proof fn lemma_urgency_sounds(a: Urgency, b: Urgency)
    ensures
        sound_for(Urgency::Critical) == "message-new-urgent"@,
        sound_for(Urgency::Normal) == "message-new-instant"@,
        sound_for(Urgency::Low) == "message"@,
        a != b ==> sound_for(a) != sound_for(b),
{
    reveal_strlit("message-new-urgent");
    reveal_strlit("message-new-instant");
    reveal_strlit("message");
    if a != b {
        assert(sound_for(a).len() != sound_for(b).len() || sound_for(a)[8] != sound_for(b)[8]);
    }
}

/// What the server did with a notification: the identifier it answers with
/// (0 when the notification was suppressed) and the sound to play, if any.
#[derive(Debug)]
pub struct NotifyOutcome {
    pub id: u32,
    pub sound: Option<&'static str>,
}

/// The urgency of a notification whose `urgency` hint is `hint`; normal when
/// the hint is absent.
pub open spec fn hinted_urgency(hint: Option<u8>) -> Urgency {
    match hint {
        Some(v) => urgency_of(v),
        None => Urgency::Normal,
    }
}

/// The `org.freedesktop.Notifications` server logic over a notification
/// store.
#[derive(Debug)]
pub struct NotificationsServer {
    storage: NotificationStorage,
}

impl NotificationsServer {
    /// The store the server writes into.
    pub closed spec fn store(&self) -> NotificationStorage {
        self.storage
    }

    /// Creates a server over `storage`.
    pub fn new(storage: NotificationStorage) -> (s: Self)
        ensures
            s.store() == storage,
    {
        NotificationsServer { storage }
    }

    /// The store the server writes into.
    pub fn storage(&self) -> (r: &NotificationStorage)
        ensures
            *r == self.store(),
    {
        &self.storage
    }

    /// Name, vendor, version and specification version of the server.
    pub fn get_server_information(&self) -> (r: (&'static str, &'static str, &'static str, &'static str))
        ensures
            r.0@ == "hydebar"@,
            r.1@ == "RAprogramm"@,
            r.2@ == "0.6.7"@,
            r.3@ == "1.2"@,
    {
        proof {
            reveal_strlit("hydebar");
            reveal_strlit("RAprogramm");
            reveal_strlit("0.6.7");
            reveal_strlit("1.2");
        }
        ("hydebar", "RAprogramm", "0.6.7", "1.2")
    }

    /// The capabilities the server announces.
    pub fn get_capabilities(&self) -> (r: Vec<String>)
        ensures
            r@.len() == 4,
            r@[0]@ == "body"@,
            r@[1]@ == "body-markup"@,
            r@[2]@ == "actions"@,
            r@[3]@ == "icon-static"@,
    {
        let mut r: Vec<String> = Vec::new();
        r.push("body".to_owned());
        r.push("body-markup".to_owned());
        r.push("actions".to_owned());
        r.push("icon-static".to_owned());
        r
    }

    /// The sound played for a notification of `urgency`.
    pub fn notification_sound(urgency: &Urgency) -> (r: &'static str)
        ensures
            r@ == sound_for(*urgency),
            *urgency == Urgency::Critical ==> r@ == "message-new-urgent"@,
            *urgency == Urgency::Normal ==> r@ == "message-new-instant"@,
            *urgency == Urgency::Low ==> r@ == "message"@,
    {
        match urgency {
            Urgency::Critical => "message-new-urgent",
            Urgency::Normal => "message-new-instant",
            Urgency::Low => "message",
        }
    }

    /// Handles a `Notify` call. The urgency comes from the `urgency` hint
    /// (normal when absent). A notification that do-not-disturb hides is
    /// answered with 0 and leaves the store as it was. Otherwise a call that
    /// replaces identifier `replaces_id > 0` removes that notification and
    /// answers with `replaces_id`; any other call stores the notification and
    /// answers with its new identifier. A sound is played when sounds are on.
    pub fn notify(
        &mut self,
        app_name: String,
        replaces_id: u32,
        app_icon: String,
        summary: String,
        body: String,
        actions: Vec<String>,
        urgency_hint: Option<u8>,
        expire_timeout: i32,
        timestamp: SystemTime,
    ) -> (r: NotifyOutcome)
        ensures
            ({
                let u = hinted_urgency(urgency_hint);
                let before = old(self).store();
                let after = final(self).store();
                let n = Notification {
                    id: 0,
                    app_name,
                    icon: app_icon,
                    summary,
                    body,
                    urgency: u,
                    timestamp,
                    actions,
                };
                &&& after.dnd() == before.dnd()
                &&& after.sounds() == before.sounds()
                &&& if !shown_under(before.dnd(), u) {
                    &&& r.id == 0
                    &&& r.sound is None
                    &&& after == before
                } else {
                    &&& (r.sound is Some) == before.sounds()
                    &&& r.sound matches Some(name) ==> name@ == sound_for(u)
                    &&& if replaces_id > 0 {
                        &&& r.id == replaces_id
                        &&& after.upcoming_id() == before.upcoming_id()
                        &&& after_remove(before.stored(), replaces_id, after.stored())
                    } else {
                        &&& r.id == before.upcoming_id()
                        &&& after.upcoming_id() == next_identifier(before.upcoming_id())
                        &&& after.stored() == after_add(before.stored(), n, r.id)
                    }
                }
            }),
    {
        let urgency = match urgency_hint {
            Some(v) => Urgency::from(v),
            None => Urgency::Normal,
        };
        let notification = Notification {
            id: 0,
            app_name,
            icon: app_icon,
            summary,
            body,
            urgency,
            timestamp,
            actions,
        };
        if !self.storage.should_show(&urgency) {
            return NotifyOutcome { id: 0, sound: None };
        }
        let id = if replaces_id > 0 {
            let removed = self.storage.remove(replaces_id);
            replaces_id
        } else {
            self.storage.add(notification)
        };
        let sound = if self.storage.sounds_enabled() {
            Some(Self::notification_sound(&urgency))
        } else {
            None
        };
        NotifyOutcome { id, sound }
    }

    /// Handles a `CloseNotification` call: removes that notification.
    pub fn close_notification(&mut self, id: u32)
        ensures
            after_remove(old(self).store().stored(), id, final(self).store().stored()),
            final(self).store().upcoming_id() == old(self).store().upcoming_id(),
            final(self).store().dnd() == old(self).store().dnd(),
            final(self).store().sounds() == old(self).store().sounds(),
    {
        let removed = self.storage.remove(id);
    }
}

/// Errors of the notifications service.
#[derive(Debug, Clone, PartialEq, Eq)]
pub enum NotificationsError {
    DBusConnection(String),
    DBusInterface(String),
}

impl NotificationsError {
    /// The human readable description of the error.
    pub fn to_string(&self) -> (s: String)
        ensures
            s@ == match *self {
                NotificationsError::DBusConnection(m) => "D-Bus connection error: "@ + m@,
                NotificationsError::DBusInterface(m) => "D-Bus interface error: "@ + m@,
            },
    {
        match self {
            NotificationsError::DBusConnection(m) => crate::text::concat2(
                "D-Bus connection error: ",
                m.as_str(),
            ),
            NotificationsError::DBusInterface(m) => crate::text::concat2(
                "D-Bus interface error: ",
                m.as_str(),
            ),
        }
    }
}

/// The notifications service as seen by the bar.
#[derive(Debug)]
pub struct NotificationsService {
    storage: NotificationStorage,
}

impl NotificationsService {
    /// The service's store.
    pub closed spec fn store(&self) -> NotificationStorage {
        self.storage
    }

    /// A service over an empty store.
    pub fn new() -> (s: Self)
        ensures
            s.store().stored().len() == 0,
            s.store().upcoming_id() == 1,
            !s.store().dnd(),
            s.store().sounds(),
    {
        NotificationsService { storage: NotificationStorage::default() }
    }

    /// Copies of the stored notifications, newest first.
    pub fn get_notifications(&self) -> (r: Vec<Notification>)
        ensures
            r@.len() == self.store().stored().len(),
            forall|k: int|
                0 <= k < r@.len() ==> same_notification(r@[k], self.store().stored()[k]),
    {
        let all = self.storage.get_all();
        let mut r: Vec<Notification> = Vec::new();
        let mut i: usize = 0;
        while i < all.len()
            invariant
                i <= all@.len(),
                all@ == self.store().stored(),
                r@.len() == i,
                forall|k: int| 0 <= k < i ==> same_notification(r@[k], all@[k]),
            decreases all.len() - i,
        {
            r.push(all[i].clone());
            i = i + 1;
        }
        r
    }

    /// The number of stored notifications.
    pub fn unread_count(&self) -> (n: usize)
        ensures
            n == self.store().stored().len(),
    {
        self.storage.unread_count()
    }

    /// Removes the notification with identifier `id`.
    pub fn dismiss(&mut self, id: u32)
        ensures
            after_remove(old(self).store().stored(), id, final(self).store().stored()),
            final(self).store().upcoming_id() == old(self).store().upcoming_id(),
            final(self).store().dnd() == old(self).store().dnd(),
            final(self).store().sounds() == old(self).store().sounds(),
    {
        let removed = self.storage.remove(id);
    }

    /// Removes every notification.
    pub fn clear_all(&mut self)
        ensures
            final(self).store().stored().len() == 0,
            final(self).store().upcoming_id() == old(self).store().upcoming_id(),
            final(self).store().dnd() == old(self).store().dnd(),
            final(self).store().sounds() == old(self).store().sounds(),
    {
        self.storage.clear();
    }

    /// Flips do-not-disturb.
    pub fn toggle_dnd(&mut self)
        ensures
            final(self).store().dnd() == !old(self).store().dnd(),
            final(self).store().stored() == old(self).store().stored(),
            final(self).store().upcoming_id() == old(self).store().upcoming_id(),
            final(self).store().sounds() == old(self).store().sounds(),
    {
        let current = self.storage.is_dnd();
        self.storage.set_dnd(!current);
    }

    /// Whether do-not-disturb is on.
    pub fn is_dnd(&self) -> (b: bool)
        ensures
            b == self.store().dnd(),
    {
        self.storage.is_dnd()
    }

    /// Applies a server event: a received notification is stored, a closed
    /// one removed; invoked actions change nothing.
    pub fn update(&mut self, event: NotificationEvent)
        ensures
            final(self).store().dnd() == old(self).store().dnd(),
            final(self).store().sounds() == old(self).store().sounds(),
            match event {
                NotificationEvent::Received(n) => {
                    &&& final(self).store().stored() == after_add(
                        old(self).store().stored(),
                        n,
                        old(self).store().upcoming_id(),
                    )
                    &&& final(self).store().upcoming_id() == next_identifier(
                        old(self).store().upcoming_id(),
                    )
                },
                NotificationEvent::Closed(id) => {
                    &&& after_remove(old(self).store().stored(), id, final(self).store().stored())
                    &&& final(self).store().upcoming_id() == old(self).store().upcoming_id()
                },
                NotificationEvent::ActionInvoked(_, _) => final(self).store() == old(self).store(),
            },
    {
        match event {
            NotificationEvent::Received(notification) => {
                let id = self.storage.add(notification);
            },
            NotificationEvent::Closed(id) => {
                let removed = self.storage.remove(id);
            },
            NotificationEvent::ActionInvoked(_, _) => {},
        }
    }
}

impl Default for NotificationsService {
    fn default() -> (s: Self)
        ensures
            s.store().stored().len() == 0,
            s.store().upcoming_id() == 1,
            !s.store().dnd(),
            s.store().sounds(),
    {
        NotificationsService::new()
    }
}

} // verus!
