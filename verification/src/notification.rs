//! Notifications and the list that shows them: ids keep the list free of
//! duplicates, and a notification closes in two steps (closing, then gone).

use vstd::prelude::*;

verus! {

/// The kind of a notification, which picks its icon.
#[derive(Debug, Clone, Copy, PartialEq, Eq, Structural)]
pub enum NotificationType {
    Info,
    Success,
    Warning,
    Error,
}

impl Default for NotificationType {
    fn default() -> (t: Self)
        ensures
            t == NotificationType::Info,
    {
        NotificationType::Info
    }
}

/// What makes a notification unique: a kind, or a kind and a key within it.
/// Pushing a notification with the id of one in the list replaces it.
#[derive(Debug, Clone, Copy, PartialEq, Eq, Structural)]
pub enum NotificationId {
    Id(u64),
    IdAndElementId(u64, u128),
}

/// The kind of the ids that [`Notification::new`] makes up; other
/// notifications are given other kinds.
pub const DEFAULT_ID_KIND: u64 = 0;

/// The number holds the version (4) and variant (RFC 4122) bits of a
/// random UUID.
pub open spec fn is_uuid_v4(id: u128) -> bool {
    (id >> 76u128) & 0xfu128 == 4 && (id >> 62u128) & 0x3u128 == 2
}

/// A random version 4 UUID, as a number: `uuid::Uuid::new_v4`, read by
/// `Uuid::as_u128`. The value is random; what every outcome has is its
/// version (4) and variant (RFC 4122) bits, which `new_v4` sets.
#[verifier::external_body]
fn random_uuid() -> (id: u128)
    ensures
        is_uuid_v4(id),
{
    uuid::Uuid::new_v4().as_u128()
}

/// A notification as plain values.
pub struct NotificationView {
    pub id: NotificationId,
    pub type_: Option<NotificationType>,
    pub title: Option<Seq<char>>,
    pub message: Option<Seq<char>>,
    pub autohide: bool,
    pub closing: bool,
}

pub open spec fn text_view(s: Option<String>) -> Option<Seq<char>> {
    match s {
        Some(s) => Some(s@),
        None => None,
    }
}

/// A new notification with id `id`: no type, title or message, hiding by
/// itself, not closing.
pub open spec fn fresh_view(id: NotificationId) -> NotificationView {
    NotificationView {
        id,
        type_: None,
        title: None,
        message: None,
        autohide: true,
        closing: false,
    }
}

/// A notification element.
pub struct Notification {
    /// The id is used make the notification unique.
    /// Then you push a notification with the same id, the previous notification will be replaced.
    id: NotificationId,
    type_: Option<NotificationType>,
    title: Option<String>,
    message: Option<String>,
    autohide: bool,
    closing: bool,
}

impl View for Notification {
    type V = NotificationView;

    closed spec fn view(&self) -> NotificationView {
        NotificationView {
            id: self.id,
            type_: self.type_,
            title: text_view(self.title),
            message: text_view(self.message),
            autohide: self.autohide,
            closing: self.closing,
        }
    }
}

impl Notification {
    /// Create a new notification; it hides by itself.
    ///
    /// The default id is a random UUID, under [`DEFAULT_ID_KIND`].
    pub fn new() -> (n: Self)
        ensures
            n@ == fresh_view(n@.id),
            n@.id matches NotificationId::IdAndElementId(kind, key) && kind == DEFAULT_ID_KIND && is_uuid_v4(key),
    {
        let id = NotificationId::IdAndElementId(DEFAULT_ID_KIND, random_uuid());
        Notification { id, type_: None, title: None, message: None, autohide: true, closing: false }
    }

    /// Set the message of the notification, default is None.
    pub fn message(self, message: String) -> (n: Self)
        ensures
            n@ == (NotificationView { message: Some(message@), ..self@ }),
    {
        let mut this = self;
        this.message = Some(message);
        this
    }

    /// Create an info notification with the given message.
    pub fn info(message: String) -> (n: Self)
        ensures
            n@ == (NotificationView {
                message: Some(message@),
                type_: Some(NotificationType::Info),
                ..fresh_view(n@.id)
            }),
            n@.id matches NotificationId::IdAndElementId(kind, key) && kind == DEFAULT_ID_KIND && is_uuid_v4(key),
    {
        Self::new().message(message).with_type(NotificationType::Info)
    }

    /// Create a success notification with the given message.
    pub fn success(message: String) -> (n: Self)
        ensures
            n@ == (NotificationView {
                message: Some(message@),
                type_: Some(NotificationType::Success),
                ..fresh_view(n@.id)
            }),
            n@.id matches NotificationId::IdAndElementId(kind, key) && kind == DEFAULT_ID_KIND && is_uuid_v4(key),
    {
        Self::new().message(message).with_type(NotificationType::Success)
    }

    /// Create a warning notification with the given message.
    pub fn warning(message: String) -> (n: Self)
        ensures
            n@ == (NotificationView {
                message: Some(message@),
                type_: Some(NotificationType::Warning),
                ..fresh_view(n@.id)
            }),
            n@.id matches NotificationId::IdAndElementId(kind, key) && kind == DEFAULT_ID_KIND && is_uuid_v4(key),
    {
        Self::new().message(message).with_type(NotificationType::Warning)
    }

    /// Create an error notification with the given message.
    pub fn error(message: String) -> (n: Self)
        ensures
            n@ == (NotificationView {
                message: Some(message@),
                type_: Some(NotificationType::Error),
                ..fresh_view(n@.id)
            }),
            n@.id matches NotificationId::IdAndElementId(kind, key) && kind == DEFAULT_ID_KIND && is_uuid_v4(key),
    {
        Self::new().message(message).with_type(NotificationType::Error)
    }

    /// Set the kind that identifies the notification.
    pub fn id(self, kind: u64) -> (n: Self)
        ensures
            n@ == (NotificationView { id: NotificationId::Id(kind), ..self@ }),
    {
        let mut this = self;
        this.id = NotificationId::Id(kind);
        this
    }

    /// Set the kind and the key that identify the notification.
    pub fn id1(self, kind: u64, key: u128) -> (n: Self)
        ensures
            n@ == (NotificationView { id: NotificationId::IdAndElementId(kind, key), ..self@ }),
    {
        let mut this = self;
        this.id = NotificationId::IdAndElementId(kind, key);
        this
    }

    /// Set the title of the notification, default is None.
    ///
    /// If title is None, the notification will not have a title.
    pub fn title(self, title: String) -> (n: Self)
        ensures
            n@ == (NotificationView { title: Some(title@), ..self@ }),
    {
        let mut this = self;
        this.title = Some(title);
        this
    }

    /// Set the type of the notification, default is NotificationType::Info.
    pub fn with_type(self, type_: NotificationType) -> (n: Self)
        ensures
            n@ == (NotificationView { type_: Some(type_), ..self@ }),
    {
        let mut this = self;
        this.type_ = Some(type_);
        this
    }

    /// Set the auto hide of the notification, default is true.
    pub fn autohide(self, autohide: bool) -> (n: Self)
        ensures
            n@ == (NotificationView { autohide, ..self@ }),
    {
        let mut this = self;
        this.autohide = autohide;
        this
    }

    pub fn notification_id(&self) -> (id: NotificationId)
        ensures
            id == self@.id,
    {
        self.id
    }

    pub fn is_autohide(&self) -> (b: bool)
        ensures
            b == self@.autohide,
    {
        self.autohide
    }

    pub fn is_closing(&self) -> (b: bool)
        ensures
            b == self@.closing,
    {
        self.closing
    }

    /// Dismiss the notification: it starts closing, and `true` says that the
    /// closing animation is to be played before [`Self::finish_dismiss`].
    /// A notification that is already closing is left as it is.
    pub fn dismiss(&mut self) -> (started: bool)
        ensures
            started == !old(self)@.closing,
            final(self)@ == (NotificationView { closing: true, ..old(self)@ }),
    {
        if self.closing {
            return false;
        }
        self.closing = true;
        true
    }

    /// The end of the closing animation: the notification is no longer
    /// closing, and its list is to drop it.
    pub fn finish_dismiss(&mut self)
        ensures
            final(self)@ == (NotificationView { closing: false, ..old(self)@ }),
    {
        self.closing = false;
    }
}

/// The notifications of `s` whose id is not `id`, in their order.
pub open spec fn without_id(s: Seq<NotificationView>, id: NotificationId) -> Seq<NotificationView>
    decreases s.len(),
{
    if s.len() == 0 {
        s
    } else {
        let rest = without_id(s.drop_last(), id);
        if s.last().id == id {
            rest
        } else {
            rest.push(s.last())
        }
    }
}

/// No two notifications share an id.
pub open spec fn ids_unique(s: Seq<NotificationView>) -> bool {
    forall|i: int, j: int| 0 <= i < j < s.len() ==> s[i].id != s[j].id
}

/// The views of a sequence of notifications.
pub open spec fn views(s: Seq<Notification>) -> Seq<NotificationView> {
    s.map_values(|n: Notification| n@)
}

/// `without_id` of one more notification.
proof fn lemma_without_id_push(s: Seq<NotificationView>, n: NotificationView, id: NotificationId)
    ensures
        without_id(s.push(n), id) == if n.id == id {
            without_id(s, id)
        } else {
            without_id(s, id).push(n)
        },
{
    assert(s.push(n).drop_last() =~= s);
}

/// What `without_id` keeps has another id, and keeps ids apart when they
/// were apart.
proof fn lemma_without_id_ids(s: Seq<NotificationView>, id: NotificationId)
    ensures
        forall|i: int| 0 <= i < without_id(s, id).len() ==> #[trigger] without_id(s, id)[i].id != id,
        ids_unique(s) ==> ids_unique(without_id(s, id)),
        forall|i: int|
            0 <= i < without_id(s, id).len() ==> exists|j: int|
                0 <= j < s.len() && #[trigger] without_id(s, id)[i] == s[j],
    decreases s.len(),
{
    if s.len() > 0 {
        lemma_without_id_ids(s.drop_last(), id);
        let rest = without_id(s.drop_last(), id);
        assert forall|i: int| 0 <= i < without_id(s, id).len() implies exists|j: int|
            0 <= j < s.len() && #[trigger] without_id(s, id)[i] == s[j] by {
            if i < rest.len() {
                let j = choose|j: int| 0 <= j < s.drop_last().len() && rest[i] == s.drop_last()[j];
                assert(s[j] == s.drop_last()[j]);
            } else {
                assert(without_id(s, id)[i] == s[s.len() - 1]);
            }
        }
        if ids_unique(s) {
            assert(ids_unique(s.drop_last()));
            assert forall|i: int, j: int| 0 <= i < j < without_id(s, id).len() implies without_id(
                s,
                id,
            )[i].id != without_id(s, id)[j].id by {
                if j == rest.len() && s.last().id != id {
                    let k = choose|k: int| 0 <= k < s.drop_last().len() && rest[i] == s.drop_last()[k];
                    assert(s[k] == s.drop_last()[k]);
                }
            }
        }
    }
}

/// A list of notifications.
pub struct NotificationList {
    /// Notifications that will be auto hidden.
    notifications: Vec<Notification>,
    /// Whether the notification list is expanded (hovered).
    expanded: bool,
}

impl NotificationList {
    pub closed spec fn spec_notifications(&self) -> Seq<NotificationView> {
        views(self.notifications@)
    }

    pub closed spec fn spec_expanded(&self) -> bool {
        self.expanded
    }

    pub fn new() -> (l: Self)
        ensures
            l.spec_notifications() == Seq::<NotificationView>::empty(),
            !l.spec_expanded(),
    {
        NotificationList { notifications: Vec::new(), expanded: false }
    }

    /// Removes every notification with id `id`, keeping the order of the others.
    fn remove_id(&mut self, id: NotificationId)
        ensures
            final(self).spec_notifications() == without_id(old(self).spec_notifications(), id),
            final(self).expanded == old(self).expanded,
    {
        let ghost old_views = self.spec_notifications();
        let mut i: usize = 0;
        let ghost mut j: int = 0;
        while i < self.notifications.len()
            invariant
                0 <= j <= old_views.len(),
                self.expanded == old(self).expanded,
                old_views.len() == old(self).notifications@.len(),
                old_views == views(old(self).notifications@),
                views(self.notifications@) == without_id(old_views.take(j), id) + old_views.skip(j),
                i == without_id(old_views.take(j), id).len(),
            decreases old_views.len() - j,
        {
            proof {
                assert(views(self.notifications@)[i as int] == self.notifications@[i as int]@);
                assert(old_views.take(j + 1) =~= old_views.take(j).push(old_views[j]));
                lemma_without_id_push(old_views.take(j), old_views[j], id);
                assert(views(self.notifications@)[i as int] == old_views[j]);
            }
            if self.notifications[i].id == id {
                let ghost before = self.notifications@;
                self.notifications.remove(i);
                proof {
                    let w = without_id(old_views.take(j), id);
                    assert(views(self.notifications@) =~= views(before).remove(i as int));
                    assert(views(before).remove(i as int) =~= w + old_views.skip(j + 1));
                    assert(views(self.notifications@) =~= without_id(old_views.take(j + 1), id)
                        + old_views.skip(j + 1));
                    j = j + 1;
                }
            } else {
                proof {
                    assert(views(self.notifications@) =~= without_id(old_views.take(j + 1), id)
                        + old_views.skip(j + 1));
                    j = j + 1;
                }
                i += 1;
            }
        }
        proof {
            assert(j == old_views.len());
            assert(old_views.take(j) =~= old_views);
            assert(views(self.notifications@) =~= without_id(old_views, id));
        }
    }

    /// Adds a notification at the end, after removing any with the same id;
    /// returns whether it hides by itself, in which case it is to be
    /// dismissed after a while.
    pub fn push(&mut self, notification: Notification) -> (autohide: bool)
        ensures
            autohide == notification@.autohide,
            final(self).spec_notifications() == without_id(
                old(self).spec_notifications(),
                notification@.id,
            ).push(notification@),
            final(self).spec_expanded() == old(self).spec_expanded(),
    {
        let id = notification.id;
        let autohide = notification.autohide;
        self.remove_id(id);
        let ghost before = self.notifications@;
        self.notifications.push(notification);
        proof {
            assert(views(self.notifications@) =~= views(before).push(notification@));
        }
        autohide
    }

    /// A notification has finished closing: every notification with its id
    /// leaves the list.
    pub fn dismissed(&mut self, id: NotificationId)
        ensures
            final(self).spec_notifications() == without_id(old(self).spec_notifications(), id),
            final(self).spec_expanded() == old(self).spec_expanded(),
    {
        self.remove_id(id);
    }

    /// Dismisses the first notification with id `id`; returns its index, or
    /// `None` when there is none.
    pub fn close(&mut self, id: NotificationId) -> (r: Option<usize>)
        ensures
            final(self).spec_expanded() == old(self).spec_expanded(),
            match r {
                Some(i) => {
                    &&& i < old(self).spec_notifications().len()
                    &&& old(self).spec_notifications()[i as int].id == id
                    &&& forall|k: int| 0 <= k < i ==> old(self).spec_notifications()[k].id != id
                    &&& final(self).spec_notifications() == old(self).spec_notifications().update(
                        i as int,
                        NotificationView { closing: true, ..old(self).spec_notifications()[i as int] },
                    )
                },
                None => {
                    &&& forall|k: int|
                        0 <= k < old(self).spec_notifications().len() ==> old(
                            self,
                        ).spec_notifications()[k].id != id
                    &&& final(self).spec_notifications() == old(self).spec_notifications()
                },
            },
    {
        let mut i: usize = 0;
        while i < self.notifications.len()
            invariant
                i <= self.notifications@.len(),
                self.notifications@ == old(self).notifications@,
                self.expanded == old(self).expanded,
                forall|k: int| 0 <= k < i ==> self.notifications@[k]@.id != id,
            decreases self.notifications@.len() - i,
        {
            if self.notifications[i].id == id {
                let ghost before = self.notifications@;
                let mut n = self.notifications.remove(i);
                n.dismiss();
                self.notifications.insert(i, n);
                proof {
                    assert(views(self.notifications@) =~= views(before).update(
                        i as int,
                        NotificationView { closing: true, ..views(before)[i as int] },
                    ));
                }
                return Some(i);
            }
            i += 1;
        }
        None
    }

    pub fn clear(&mut self)
        ensures
            final(self).spec_notifications() == Seq::<NotificationView>::empty(),
            final(self).spec_expanded() == old(self).spec_expanded(),
    {
        self.notifications = Vec::new();
    }

    /// The notifications, oldest first.
    pub fn notifications(&self) -> (r: &Vec<Notification>)
        ensures
            views(r@) == self.spec_notifications(),
    {
        &self.notifications
    }

    /// Whether the list is expanded (hovered).
    pub fn expanded(&self) -> (b: bool)
        ensures
            b == self.spec_expanded(),
    {
        self.expanded
    }

    pub fn set_expanded(&mut self, expanded: bool)
        ensures
            final(self).spec_expanded() == expanded,
            final(self).spec_notifications() == old(self).spec_notifications(),
    {
        self.expanded = expanded;
    }
}

/// Pushing keeps the ids of the list apart, and the pushed notification is
/// the only one with its id; the others keep their order.
pub proof fn lemma_push_keeps_ids_unique(list: Seq<NotificationView>, n: NotificationView)
    requires
        ids_unique(list),
    ensures
        ids_unique(without_id(list, n.id).push(n)),
        forall|i: int|
            0 <= i < without_id(list, n.id).len() ==> #[trigger] without_id(list, n.id)[i].id != n.id,
{
    lemma_without_id_ids(list, n.id);
}

/// Removing a dismissed notification, or closing one, keeps the ids of the
/// list apart.
pub proof fn lemma_close_dismiss_keep_ids_unique(list: Seq<NotificationView>, id: NotificationId, i: int)
    requires
        ids_unique(list),
        0 <= i < list.len(),
    ensures
        ids_unique(without_id(list, id)),
        ids_unique(list.update(i, NotificationView { closing: true, ..list[i] })),
{
    lemma_without_id_ids(list, id);
}

} // verus!
