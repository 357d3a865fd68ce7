//! The system tray: items registered by applications, their icons and
//! menus, and the watcher that keeps them up to date.

use vstd::prelude::*;
use crate::services::ReadOnlyService;
use crate::text::{concat2, str_eq};

verus! {

/// An icon pixmap as an application publishes it: ARGB pixels, four bytes
/// each, row by row.
#[derive(Debug, Clone)]
pub struct Icon {
    pub width: i32,
    pub height: i32,
    pub bytes: Vec<u8>,
}

/// An RGBA image ready to be shown.
#[derive(Debug, Clone)]
pub struct RgbaImage {
    pub width: u32,
    pub height: u32,
    pub pixels: Vec<u8>,
}

/// The icon of a tray item.
#[derive(Debug, Clone)]
pub enum TrayIcon {
    /// A pixmap published by the application.
    Image(RgbaImage),
    /// A raster image file of the icon theme.
    ImageFile(String),
    /// A vector image file of the icon theme.
    Svg(String),
}

/// Whether pixmap `a` is no larger than `b`: by width, then by height.
pub open spec fn pixmap_le(a: Icon, b: Icon) -> bool {
    a.width < b.width || (a.width == b.width && a.height <= b.height)
}

/// Whether `i` is the last of the largest pixmaps.
pub open spec fn is_last_largest(pixmaps: Seq<Icon>, i: int) -> bool {
    &&& 0 <= i < pixmaps.len()
    &&& forall|j: int| 0 <= j < pixmaps.len() ==> pixmap_le(#[trigger] pixmaps[j], pixmaps[i])
    &&& forall|j: int| i < j < pixmaps.len() ==> !pixmap_le(pixmaps[i], #[trigger] pixmaps[j])
}

/// ARGB bytes turned into RGBA: each whole group of four bytes is rotated
/// left by one; trailing bytes are kept.
pub open spec fn argb_to_rgba(b: Seq<u8>) -> Seq<u8> {
    let whole = b.len() - b.len() % 4;
    Seq::new(
        b.len(),
        |k: int|
            if k < whole {
                b[k - k % 4 + (k % 4 + 1) % 4]
            } else {
                b[k]
            },
    )
}

/// The RGBA bytes of an ARGB pixmap.
fn rgba_bytes(bytes: &Vec<u8>) -> (r: Vec<u8>)
    ensures
        r@ == argb_to_rgba(bytes@),
{
    let n = bytes.len();
    let whole = n - n % 4;
    let mut out: Vec<u8> = Vec::new();
    let mut k: usize = 0;
    while k < n
        invariant
            n == bytes@.len(),
            whole == n - n % 4,
            k <= n,
            out@.len() == k,
            forall|j: int| 0 <= j < k ==> out@[j] == argb_to_rgba(bytes@)[j],
        decreases n - k,
    {
        let v = if k < whole {
            bytes[k - k % 4 + (k % 4 + 1) % 4]
        } else {
            bytes[k]
        };
        out.push(v);
        k = k + 1;
    }
    proof {
        assert(out@ =~= argb_to_rgba(bytes@));
    }
    out
}

/// The icon of an item's pixmaps: the largest one (the last of equals),
/// turned into RGBA; none when there are no pixmaps.
pub fn icon_from_pixmaps(pixmaps: Vec<Icon>) -> (r: Option<TrayIcon>)
    ensures
        pixmaps@.len() == 0 ==> r is None,
        pixmaps@.len() > 0 ==> exists|i: int|
            is_last_largest(pixmaps@, i) && (r matches Some(TrayIcon::Image(img))
                && img.width == pixmaps@[i].width as u32 && img.height
                == pixmaps@[i].height as u32 && img.pixels@ == argb_to_rgba(pixmaps@[i].bytes@)),
{
    let n = pixmaps.len();
    if n == 0 {
        return None;
    }
    let mut best: usize = 0;
    let mut i: usize = 1;
    while i < n
        invariant
            n == pixmaps@.len(),
            1 <= i <= n,
            best < i,
            forall|j: int| 0 <= j < i ==> pixmap_le(#[trigger] pixmaps@[j], pixmaps@[best as int]),
            forall|j: int| best < j < i ==> !pixmap_le(pixmaps@[best as int], #[trigger] pixmaps@[j]),
        decreases n - i,
    {
        let b = &pixmaps[best];
        let c = &pixmaps[i];
        if b.width < c.width || (b.width == c.width && b.height <= c.height) {
            best = i;
        }
        i = i + 1;
    }
    let icon = &pixmaps[best];
    assert(is_last_largest(pixmaps@, best as int));
    Some(
        TrayIcon::Image(
            RgbaImage {
                width: icon.width as u32,
                height: icon.height as u32,
                pixels: rgba_bytes(&icon.bytes),
            },
        ),
    )
}

/// Finds an icon file: with the icon theme when there is one, falling back
/// to the lookup without theme when that fails. Each lookup is made at most
/// once.
pub fn icon_path_with_theme_fallback<P, F, G>(
    theme: Option<String>,
    themed_lookup: F,
    default_lookup: G,
) -> (r: Option<P>) where F: FnOnce(&str) -> Option<P>, G: FnOnce() -> Option<P>
    requires
        forall|s: &str| themed_lookup.requires((s,)),
        default_lookup.requires(()),
    ensures
        theme is None ==> default_lookup.ensures((), r),
        theme matches Some(t) ==> exists|s: &str, found: Option<P>|
            s@ == t@ && themed_lookup.ensures((s,), found) && (found is Some ==> r == found)
                && (found is None ==> default_lookup.ensures((), r)),
{
    match theme {
        Some(name) => {
            let found = themed_lookup(name.as_str());
            match found {
                Some(path) => Some(path),
                None => default_lookup(),
            }
        },
        None => default_lookup(),
    }
}

/// A menu entry click to forward to an item's menu.
#[derive(Debug, Clone)]
pub enum TrayCommand {
    MenuSelected(String, i32),
}

/// An item registered with the tray; `M` is its menu layout.
#[derive(Debug, Clone)]
pub struct StatusNotifierItem<M> {
    pub name: String,
    pub icon: Option<TrayIcon>,
    pub menu: M,
}

/// The registered items, in registration order.
#[derive(Debug, Clone)]
pub struct TrayData<M>(pub Vec<StatusNotifierItem<M>>);

/// A change reported by the tray watcher.
#[derive(Debug, Clone)]
pub enum TrayEvent<M> {
    Registered(StatusNotifierItem<M>),
    IconChanged(String, TrayIcon),
    MenuLayoutChanged(String, M),
    Unregistered(String),
    NoChange,
}

/// The tray state.
#[derive(Debug, Clone)]
pub struct TrayService<M> {
    pub data: TrayData<M>,
}

/// Whether `i` is the first item named `name`.
pub open spec fn is_first_item<M>(items: Seq<StatusNotifierItem<M>>, name: Seq<char>, i: int) -> bool {
    &&& 0 <= i < items.len()
    &&& items[i].name@ == name
    &&& forall|j: int| 0 <= j < i ==> (#[trigger] items[j]).name@ != name
}

/// Whether no item is named `name`.
pub open spec fn no_item_named<M>(items: Seq<StatusNotifierItem<M>>, name: Seq<char>) -> bool {
    forall|j: int| 0 <= j < items.len() ==> (#[trigger] items[j]).name@ != name
}

/// The items without those named `name`, in order.
pub open spec fn without_named<M>(items: Seq<StatusNotifierItem<M>>, name: Seq<char>) -> Seq<
    StatusNotifierItem<M>,
>
    decreases items.len(),
{
    if items.len() == 0 {
        items
    } else if items.last().name@ == name {
        without_named(items.drop_last(), name)
    } else {
        without_named(items.drop_last(), name).push(items.last())
    }
}

proof fn lemma_without_absent<M>(items: Seq<StatusNotifierItem<M>>, name: Seq<char>)
    requires
        no_item_named(items, name),
    ensures
        without_named(items, name) == items,
    decreases items.len(),
{
    if items.len() > 0 {
        let t = items.drop_last();
        assert forall|j: int| 0 <= j < t.len() implies (#[trigger] t[j]).name@ != name by {
            assert(t[j] == items[j]);
        }
        lemma_without_absent(t, name);
        assert(items.last().name@ != name);
        assert(t.push(items.last()) =~= items);
    }
}

/// Registering an item under a new name and then unregistering that name
/// gives back the items as they were.
pub proof fn lemma_register_then_unregister<M>(items: Seq<StatusNotifierItem<M>>, item: StatusNotifierItem<M>)
    requires
        no_item_named(items, item.name@),
    ensures
        without_named(items.push(item), item.name@) == items,
{
    let s = items.push(item);
    assert(s.drop_last() =~= items);
    lemma_without_absent(items, item.name@);
}

/// The position of the first item named `name`.
fn find_item<M>(items: &Vec<StatusNotifierItem<M>>, name: &str) -> (r: Option<usize>)
    ensures
        r matches Some(i) ==> is_first_item(items@, name@, i as int),
        r is None ==> no_item_named(items@, name@),
{
    let mut i: usize = 0;
    while i < items.len()
        invariant
            i <= items@.len(),
            forall|j: int| 0 <= j < i ==> (#[trigger] items@[j]).name@ != name@,
        decreases items@.len() - i,
    {
        if str_eq(items[i].name.as_str(), name) {
            return Some(i);
        }
        i = i + 1;
    }
    None
}

/// Where a menu click goes: the first item with the clicked item's name.
#[derive(Debug, Clone)]
pub struct TrayMenuClick {
    pub index: usize,
    pub name: String,
    pub id: i32,
}

impl<M> TrayService<M> {
    /// The tray with the given items.
    pub fn new(data: TrayData<M>) -> (s: Self)
        ensures
            s.data == data,
    {
        TrayService { data }
    }

    /// Applies a change reported by the watcher: a registration replaces the
    /// first item of the same name or is appended, icon and menu changes go
    /// to the first item of that name, an unregistration removes every item
    /// of that name.
    pub fn update(&mut self, event: TrayEvent<M>)
        ensures
            match event {
                TrayEvent::Registered(item) => {
                    let old_items = old(self).data.0@;
                    if no_item_named(old_items, item.name@) {
                        final(self).data.0@ == old_items.push(item)
                    } else {
                        exists|i: int|
                            is_first_item(old_items, item.name@, i) && final(self).data.0@
                                == old_items.update(i, item)
                    }
                },
                TrayEvent::IconChanged(name, icon) => {
                    let old_items = old(self).data.0@;
                    if no_item_named(old_items, name@) {
                        final(self).data.0@ == old_items
                    } else {
                        exists|i: int|
                            is_first_item(old_items, name@, i) && final(self).data.0@
                                == old_items.update(
                                i,
                                StatusNotifierItem { icon: Some(icon), ..old_items[i] },
                            )
                    }
                },
                TrayEvent::MenuLayoutChanged(name, menu) => {
                    let old_items = old(self).data.0@;
                    if no_item_named(old_items, name@) {
                        final(self).data.0@ == old_items
                    } else {
                        exists|i: int|
                            is_first_item(old_items, name@, i) && final(self).data.0@
                                == old_items.update(i, StatusNotifierItem { menu, ..old_items[i] })
                    }
                },
                TrayEvent::Unregistered(name) => final(self).data.0@ == without_named(
                    old(self).data.0@,
                    name@,
                ),
                TrayEvent::NoChange => final(self).data.0@ == old(self).data.0@,
            },
    {
        match event {
            TrayEvent::Registered(item) => {
                match find_item(&self.data.0, item.name.as_str()) {
                    Some(i) => {
                        self.data.0.set(i, item);
                    },
                    None => {
                        self.data.0.push(item);
                    },
                }
            },
            TrayEvent::IconChanged(name, icon) => {
                match find_item(&self.data.0, name.as_str()) {
                    Some(i) => {
                        let mut item = self.data.0.remove(i);
                        item.icon = Some(icon);
                        self.data.0.insert(i, item);
                        proof {
                            assert(self.data.0@ =~= old(self).data.0@.update(
                                i as int,
                                StatusNotifierItem { icon: self.data.0@[i as int].icon, ..old(self).data.0@[i as int] },
                            ));
                        }
                    },
                    None => {},
                }
            },
            TrayEvent::MenuLayoutChanged(name, menu) => {
                match find_item(&self.data.0, name.as_str()) {
                    Some(i) => {
                        let mut item = self.data.0.remove(i);
                        item.menu = menu;
                        self.data.0.insert(i, item);
                        proof {
                            assert(self.data.0@ =~= old(self).data.0@.update(
                                i as int,
                                StatusNotifierItem { menu: self.data.0@[i as int].menu, ..old(self).data.0@[i as int] },
                            ));
                        }
                    },
                    None => {},
                }
            },
            TrayEvent::Unregistered(name) => {
                let mut kept: Vec<StatusNotifierItem<M>> = Vec::new();
                let mut items: Vec<StatusNotifierItem<M>> = Vec::new();
                std::mem::swap(&mut items, &mut self.data.0);
                let ghost all = items@;
                let n = items.len();
                let mut i: usize = 0;
                while i < n
                    invariant
                        n == all.len(),
                        i <= n,
                        items@ == all.subrange(i as int, n as int),
                        kept@ == without_named(all.take(i as int), name@),
                    decreases n - i,
                {
                    let item = items.remove(0);
                    proof {
                        assert(all.take(i + 1).drop_last() =~= all.take(i as int));
                        assert(all.take(i + 1).last() == all[i as int]);
                    }
                    if !str_eq(item.name.as_str(), name.as_str()) {
                        kept.push(item);
                    }
                    i = i + 1;
                    proof {
                        assert(items@ =~= all.subrange(i as int, n as int));
                    }
                }
                proof {
                    assert(all.take(n as int) =~= all);
                }
                self.data.0 = kept;
            },
            TrayEvent::NoChange => {},
        }
    }

    /// Where a menu click goes: the first item with that name; none when no
    /// item has it.
    pub fn prepare_command(&self, command: TrayCommand) -> (r: Option<TrayMenuClick>)
        ensures
            match command {
                TrayCommand::MenuSelected(name, id) => {
                    &&& no_item_named(self.data.0@, name@) ==> r is None
                    &&& !no_item_named(self.data.0@, name@) ==> (r matches Some(c) && is_first_item(
                        self.data.0@,
                        name@,
                        c.index as int,
                    ) && c.name == self.data.0@[c.index as int].name && c.id == id)
                },
            },
    {
        match command {
            TrayCommand::MenuSelected(name, id) => {
                match find_item(&self.data.0, name.as_str()) {
                    Some(i) => Some(
                        TrayMenuClick { index: i, name: self.data.0[i].name.clone(), id },
                    ),
                    None => None,
                }
            },
        }
    }
}

impl<M> ReadOnlyService for TrayService<M> {
    type UpdateEvent = TrayEvent<M>;
    type Error = ();
}

/// Failure of the tray watcher; the payloads are the underlying errors'
/// messages.
#[derive(Debug, Clone)]
pub enum TrayWatcherError {
    Connection(String),
    Initialization(String),
    EventStream(String),
}

/// The description of a watcher failure.
pub open spec fn watcher_error_text(e: TrayWatcherError) -> Seq<char> {
    match e {
        TrayWatcherError::Connection(m) => "failed to connect to system bus: "@ + m@,
        TrayWatcherError::Initialization(m) => "failed to initialise tray service: "@ + m@,
        TrayWatcherError::EventStream(m) => "failed to listen for tray events: "@ + m@,
    }
}

impl TrayWatcherError {
    /// The description of the failure.
    pub fn to_string(&self) -> (s: String)
        ensures
            s@ == watcher_error_text(*self),
    {
        match self {
            TrayWatcherError::Connection(m) => concat2(
                "failed to connect to system bus: ",
                m.as_str(),
            ),
            TrayWatcherError::Initialization(m) => concat2(
                "failed to initialise tray service: ",
                m.as_str(),
            ),
            TrayWatcherError::EventStream(m) => concat2(
                "failed to listen for tray events: ",
                m.as_str(),
            ),
        }
    }
}

/// The phases of the tray watcher.
#[derive(Debug, Clone, Copy, PartialEq, Eq, Structural)]
pub enum WatcherState {
    /// Connecting and loading the registered items.
    Init,
    /// Forwarding changes.
    Active,
    /// Stopped after a failure.
    Error,
}

/// Any watcher failure stops the watcher.
pub fn transition_to_error(error: TrayWatcherError) -> (s: WatcherState)
    ensures
        s == WatcherState::Error,
{
    WatcherState::Error
}

/// The next phase after the watcher's step in `state`: `ok` says whether the
/// connection (in `Init`) or the event stream (in `Active`) could be set
/// up. A registration ends a stream, which is then set up again; the error
/// phase is final.
pub fn next_watcher_state(state: WatcherState, ok: bool) -> (s: WatcherState)
    ensures
        state == WatcherState::Error ==> s == WatcherState::Error,
        state != WatcherState::Error ==> s == (if ok {
            WatcherState::Active
        } else {
            WatcherState::Error
        }),
{
    match state {
        WatcherState::Init => if ok {
            WatcherState::Active
        } else {
            WatcherState::Error
        },
        WatcherState::Active => if ok {
            WatcherState::Active
        } else {
            WatcherState::Error
        },
        WatcherState::Error => WatcherState::Error,
    }
}

/// Whether the watcher re-reads the registered items after forwarding this
/// event (a new registration needs its own change streams).
pub fn reloads_after<M>(event: &TrayEvent<M>) -> (b: bool)
    ensures
        b == (*event is Registered),
{
    match event {
        TrayEvent::Registered(_) => true,
        _ => false,
    }
}

} // verus!
