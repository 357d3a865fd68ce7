//! Privacy tracking: which applications use the microphone, the webcam or
//! screen sharing, as reported by PipeWire and by webcam device events.

use vstd::prelude::*;
use crate::icons::Icons;
use crate::services::{ReadOnlyService, ServiceEvent};
use crate::text::{concat2, str_eq};

verus! {

/// Media class reported by PipeWire for an application node.
#[derive(Debug, Copy, Clone, PartialEq, Eq, Structural)]
pub enum Media {
    /// A video stream, typically screen sharing.
    Video,
    /// An audio stream, typically microphone usage.
    Audio,
}

/// An application node accessing a privacy-sensitive resource.
#[derive(Debug, Copy, Clone, PartialEq, Eq, Structural)]
pub struct ApplicationNode {
    /// Identifier assigned by PipeWire.
    pub id: u32,
    /// Media classification of the node.
    pub media: Media,
}

/// The PipeWire media class of an input video stream.
pub const VIDEO_INPUT_CLASS: &'static str = "Stream/Input/Video";

/// The PipeWire media class of an input audio stream.
pub const AUDIO_INPUT_CLASS: &'static str = "Stream/Input/Audio";

/// The media of a PipeWire node of class `class`: input video and audio
/// streams are tracked, every other class is not.
pub open spec fn media_of_class(class: Seq<char>) -> Option<Media> {
    if class == "Stream/Input/Video"@ {
        Some(Media::Video)
    } else if class == "Stream/Input/Audio"@ {
        Some(Media::Audio)
    } else {
        None
    }
}

/// Classifies a PipeWire node by its `media.class` property.
pub fn media_from_class(class: &str) -> (m: Option<Media>)
    ensures
        m == media_of_class(class@),
{
    if str_eq(class, VIDEO_INPUT_CLASS) {
        Some(Media::Video)
    } else if str_eq(class, AUDIO_INPUT_CLASS) {
        Some(Media::Audio)
    } else {
        None
    }
}

/// The event announcing a PipeWire node with media class `class`, if it is
/// one that is tracked.
pub fn node_added_event(id: u32, class: &str) -> (e: Option<PrivacyEvent>)
    ensures
        e == match media_of_class(class@) {
            Some(media) => Some(PrivacyEvent::AddNode(ApplicationNode { id, media })),
            None => None,
        },
{
    match media_from_class(class) {
        Some(media) => Some(PrivacyEvent::AddNode(ApplicationNode { id, media })),
        None => None,
    }
}

/// The inotify `IN_OPEN` event mask.
pub const IN_OPEN: u32 = 0x20;

/// The inotify `IN_CLOSE_WRITE` event mask.
pub const IN_CLOSE_WRITE: u32 = 0x8;

/// The inotify `IN_CLOSE_NOWRITE` event mask.
pub const IN_CLOSE_NOWRITE: u32 = 0x10;

/// The webcam event that an inotify event with mask `mask` on the webcam
/// device stands for: an open, a close, or nothing.
pub fn webcam_event_from_mask(mask: u32) -> (e: Option<PrivacyEvent>)
    ensures
        e == if mask == IN_OPEN {
            Some(PrivacyEvent::WebcamOpen)
        } else if mask == IN_CLOSE_WRITE || mask == IN_CLOSE_NOWRITE {
            Some(PrivacyEvent::WebcamClose)
        } else {
            None
        },
{
    if mask == IN_OPEN {
        Some(PrivacyEvent::WebcamOpen)
    } else if mask == IN_CLOSE_WRITE || mask == IN_CLOSE_NOWRITE {
        Some(PrivacyEvent::WebcamClose)
    } else {
        None
    }
}

/// Whether some node in `nodes` has media `m`.
pub open spec fn uses_media(nodes: Seq<ApplicationNode>, m: Media) -> bool {
    exists|k: int| 0 <= k < nodes.len() && nodes[k].media == m
}

/// Aggregated privacy information exposed to the bar.
#[derive(Debug, Clone)]
pub struct PrivacyData {
    nodes: Vec<ApplicationNode>,
    webcam_access: i32,
}

impl PrivacyData {
    /// The tracked application nodes.
    pub closed spec fn nodes_view(&self) -> Seq<ApplicationNode> {
        self.nodes@
    }

    /// The number of processes that hold the webcam open.
    pub closed spec fn webcam_users(&self) -> i32 {
        self.webcam_access
    }

    /// Privacy data with no node and `webcam_users` processes holding the
    /// webcam open.
    pub fn new(webcam_users: i32) -> (d: Self)
        ensures
            d.nodes_view().len() == 0,
            d.webcam_users() == webcam_users,
    {
        PrivacyData { nodes: Vec::new(), webcam_access: webcam_users }
    }

    /// Whether nothing privacy-sensitive is in use.
    pub fn no_access(&self) -> (b: bool)
        ensures
            b == (self.nodes_view().len() == 0 && self.webcam_users() == 0),
    {
        self.nodes.len() == 0 && self.webcam_access == 0
    }

    /// Whether an audio input node is active.
    pub fn microphone_access(&self) -> (b: bool)
        ensures
            b == uses_media(self.nodes_view(), Media::Audio),
    {
        self.any_media(Media::Audio)
    }

    /// Whether the webcam is in use.
    pub fn webcam_access(&self) -> (b: bool)
        ensures
            b == (self.webcam_users() > 0),
    {
        self.webcam_access > 0
    }

    /// Whether a video capture node (typically screen sharing) is active.
    pub fn screenshare_access(&self) -> (b: bool)
        ensures
            b == uses_media(self.nodes_view(), Media::Video),
    {
        self.any_media(Media::Video)
    }

    fn any_media(&self, m: Media) -> (b: bool)
        ensures
            b == uses_media(self.nodes_view(), m),
    {
        let mut i: usize = 0;
        while i < self.nodes.len()
            invariant
                i <= self.nodes.len(),
                forall|k: int| 0 <= k < i ==> self.nodes@[k].media != m,
            decreases self.nodes.len() - i,
        {
            if self.nodes[i].media == m {
                return true;
            }
            i = i + 1;
        }
        false
    }
}

/// An event of the privacy listeners.
#[derive(Debug, Clone, Copy, PartialEq, Eq, Structural)]
pub enum PrivacyEvent {
    /// A new PipeWire node has been announced.
    AddNode(ApplicationNode),
    /// A PipeWire node has been removed.
    RemoveNode(u32),
    /// The webcam device has been opened.
    WebcamOpen,
    /// The webcam device has been closed.
    WebcamClose,
}

/// `nodes` without the nodes of identifier `id`, in order.
pub open spec fn without_node(nodes: Seq<ApplicationNode>, id: u32) -> Seq<ApplicationNode> {
    nodes.filter(|n: ApplicationNode| n.id != id)
}

/// Whether an event can be applied to a webcam count: the count is kept
/// within `i32`.
pub open spec fn event_applies(webcam_users: i32, event: PrivacyEvent) -> bool {
    match event {
        PrivacyEvent::WebcamOpen => webcam_users < i32::MAX,
        PrivacyEvent::WebcamClose => webcam_users > i32::MIN,
        _ => true,
    }
}

/// Privacy state published to the bar's modules.
#[derive(Debug, Clone)]
pub struct PrivacyService {
    data: PrivacyData,
}

impl PrivacyService {
    /// The service's data.
    pub closed spec fn state(&self) -> PrivacyData {
        self.data
    }

    /// A service publishing `data`.
    pub fn new(data: PrivacyData) -> (s: Self)
        ensures
            s.state() == data,
    {
        PrivacyService { data }
    }

    /// The published data.
    pub fn data(&self) -> (d: &PrivacyData)
        ensures
            *d == self.state(),
    {
        &self.data
    }

    /// Applies an event: an added node is appended, a removed node drops
    /// every node with its identifier, a webcam open raises the user count
    /// and a close lowers it, never below zero.
    pub fn apply(&mut self, event: PrivacyEvent)
        requires
            event_applies(old(self).state().webcam_users(), event),
        ensures
            match event {
                PrivacyEvent::AddNode(node) => {
                    &&& final(self).state().nodes_view() == old(self).state().nodes_view().push(node)
                    &&& final(self).state().webcam_users() == old(self).state().webcam_users()
                },
                PrivacyEvent::RemoveNode(id) => {
                    &&& final(self).state().nodes_view() == without_node(
                        old(self).state().nodes_view(),
                        id,
                    )
                    &&& final(self).state().webcam_users() == old(self).state().webcam_users()
                },
                PrivacyEvent::WebcamOpen => {
                    &&& final(self).state().nodes_view() == old(self).state().nodes_view()
                    &&& final(self).state().webcam_users() == old(self).state().webcam_users() + 1
                },
                PrivacyEvent::WebcamClose => {
                    &&& final(self).state().nodes_view() == old(self).state().nodes_view()
                    &&& final(self).state().webcam_users() == if old(self).state().webcam_users()
                        - 1 > 0 {
                        old(self).state().webcam_users() - 1
                    } else {
                        0
                    }
                },
            },
    {
        match event {
            PrivacyEvent::AddNode(node) => {
                self.data.nodes.push(node);
            },
            PrivacyEvent::RemoveNode(id) => {
                let mut old_nodes: Vec<ApplicationNode> = Vec::new();
                std::mem::swap(&mut old_nodes, &mut self.data.nodes);
                let mut kept: Vec<ApplicationNode> = Vec::new();
                let mut i: usize = 0;
                while i < old_nodes.len()
                    invariant
                        i <= old_nodes.len(),
                        kept@ == without_node(old_nodes@.take(i as int), id),
                    decreases old_nodes.len() - i,
                {
                    let n = old_nodes[i];
                    proof {
                        assert(old_nodes@.take(i + 1).drop_last() =~= old_nodes@.take(i as int));
                        reveal_with_fuel(Seq::filter, 1);
                    }
                    if n.id != id {
                        kept.push(n);
                    }
                    i = i + 1;
                }
                assert(old_nodes@.take(old_nodes.len() as int) =~= old_nodes@);
                self.data.nodes = kept;
            },
            PrivacyEvent::WebcamOpen => {
                self.data.webcam_access = self.data.webcam_access + 1;
            },
            PrivacyEvent::WebcamClose => {
                let lowered = self.data.webcam_access - 1;
                self.data.webcam_access = if lowered > 0 {
                    lowered
                } else {
                    0
                };
            },
        }
    }
}

impl ReadOnlyService for PrivacyService {
    type UpdateEvent = PrivacyEvent;

    type Error = PrivacyError;
}

/// Error of the privacy service.
#[derive(Debug, Clone, PartialEq, Eq)]
pub enum PrivacyError {
    /// Failed to initialise the PipeWire main loop.
    PipewireMainloop { context: String },
    /// Failed to create the PipeWire context.
    PipewireContext { context: String },
    /// Failed to connect to the PipeWire core service.
    PipewireCore { context: String },
    /// Failed to access the PipeWire registry.
    PipewireRegistry { context: String },
    /// Failed to initialise inotify for webcam monitoring.
    InotifyInit { context: String },
    /// Failed to watch the webcam device with inotify.
    InotifyWatch { context: String },
    /// Failed to communicate over the service's channels.
    Channel { context: String },
    /// The webcam device is not present.
    WebcamUnavailable,
}

/// The description of a privacy error.
pub open spec fn privacy_error_text(e: PrivacyError) -> Seq<char> {
    match e {
        PrivacyError::PipewireMainloop { context } => "failed to initialise PipeWire main loop: "@
            + context@,
        PrivacyError::PipewireContext { context } => "failed to create PipeWire context: "@
            + context@,
        PrivacyError::PipewireCore { context } => "failed to connect to PipeWire core: "@
            + context@,
        PrivacyError::PipewireRegistry { context } => "failed to access PipeWire registry: "@
            + context@,
        PrivacyError::InotifyInit { context } => "failed to initialise inotify: "@ + context@,
        PrivacyError::InotifyWatch { context } => "failed to watch webcam device: "@ + context@,
        PrivacyError::Channel { context } => "privacy service channel error: "@ + context@,
        PrivacyError::WebcamUnavailable => "webcam device is unavailable"@,
    }
}

impl PrivacyError {
    /// A PipeWire main loop error.
    pub fn pipewire_mainloop(context: String) -> (e: Self)
        ensures
            e == (PrivacyError::PipewireMainloop { context }),
    {
        PrivacyError::PipewireMainloop { context }
    }

    /// A PipeWire context error.
    pub fn pipewire_context(context: String) -> (e: Self)
        ensures
            e == (PrivacyError::PipewireContext { context }),
    {
        PrivacyError::PipewireContext { context }
    }

    /// A PipeWire core connection error.
    pub fn pipewire_core(context: String) -> (e: Self)
        ensures
            e == (PrivacyError::PipewireCore { context }),
    {
        PrivacyError::PipewireCore { context }
    }

    /// A PipeWire registry error.
    pub fn pipewire_registry(context: String) -> (e: Self)
        ensures
            e == (PrivacyError::PipewireRegistry { context }),
    {
        PrivacyError::PipewireRegistry { context }
    }

    /// An inotify initialisation error.
    pub fn inotify_init(context: String) -> (e: Self)
        ensures
            e == (PrivacyError::InotifyInit { context }),
    {
        PrivacyError::InotifyInit { context }
    }

    /// An inotify watch registration error.
    pub fn inotify_watch(context: String) -> (e: Self)
        ensures
            e == (PrivacyError::InotifyWatch { context }),
    {
        PrivacyError::InotifyWatch { context }
    }

    /// A channel error.
    pub fn channel(context: String) -> (e: Self)
        ensures
            e == (PrivacyError::Channel { context }),
    {
        PrivacyError::Channel { context }
    }

    /// The error for an I/O failure: a missing device means the webcam is
    /// unavailable, anything else is an inotify initialisation failure
    /// described by `message`.
    pub fn from_io_error(not_found: bool, message: String) -> (e: Self)
        ensures
            e == if not_found {
                PrivacyError::WebcamUnavailable
            } else {
                PrivacyError::InotifyInit { context: message }
            },
    {
        if not_found {
            PrivacyError::WebcamUnavailable
        } else {
            PrivacyError::InotifyInit { context: message }
        }
    }

    /// The error for a PipeWire failure described by `message`.
    pub fn from_pipewire_error(message: String) -> (e: Self)
        ensures
            e == (PrivacyError::PipewireMainloop { context: message }),
    {
        PrivacyError::PipewireMainloop { context: message }
    }

    /// The human readable description of the error.
    pub fn to_string(&self) -> (s: String)
        ensures
            s@ == privacy_error_text(*self),
    {
        match self {
            PrivacyError::PipewireMainloop { context } => concat2(
                "failed to initialise PipeWire main loop: ",
                context.as_str(),
            ),
            PrivacyError::PipewireContext { context } => concat2(
                "failed to create PipeWire context: ",
                context.as_str(),
            ),
            PrivacyError::PipewireCore { context } => concat2(
                "failed to connect to PipeWire core: ",
                context.as_str(),
            ),
            PrivacyError::PipewireRegistry { context } => concat2(
                "failed to access PipeWire registry: ",
                context.as_str(),
            ),
            PrivacyError::InotifyInit { context } => concat2(
                "failed to initialise inotify: ",
                context.as_str(),
            ),
            PrivacyError::InotifyWatch { context } => concat2(
                "failed to watch webcam device: ",
                context.as_str(),
            ),
            PrivacyError::Channel { context } => concat2(
                "privacy service channel error: ",
                context.as_str(),
            ),
            PrivacyError::WebcamUnavailable => "webcam device is unavailable".to_owned(),
        }
    }
}

/// Message of the privacy module.
#[derive(Debug)]
pub enum PrivacyMessage {
    Event(ServiceEvent<PrivacyService>),
}

/// The privacy module of the bar.
#[derive(Debug, Clone)]
pub struct Privacy {
    pub service: Option<PrivacyService>,
}

impl Default for Privacy {
    fn default() -> (p: Self)
        ensures
            p.service is None,
    {
        Privacy { service: None }
    }
}

/// Whether a privacy message can be applied to the module: an update keeps
/// the webcam count within `i32`.
pub open spec fn message_applies(p: Privacy, message: PrivacyMessage) -> bool {
    match message {
        PrivacyMessage::Event(ServiceEvent::Update(event)) => match p.service {
            Some(s) => event_applies(s.state().webcam_users(), event),
            None => true,
        },
        _ => true,
    }
}

impl Privacy {
    /// Updates the module: the init event installs the service, updates are
    /// applied to it (ignored before init), errors leave it unchanged.
    pub fn update(&mut self, message: PrivacyMessage)
        requires
            message_applies(*old(self), message),
        ensures
            match message {
                PrivacyMessage::Event(ServiceEvent::Init(s)) => final(self).service == Some(s),
                PrivacyMessage::Event(ServiceEvent::Update(event)) => match old(self).service {
                    Some(s) => {
                        &&& final(self).service is Some
                        &&& final(self).service->0.state().nodes_view() == match event {
                            PrivacyEvent::AddNode(node) => s.state().nodes_view().push(node),
                            PrivacyEvent::RemoveNode(id) => without_node(s.state().nodes_view(), id),
                            _ => s.state().nodes_view(),
                        }
                        &&& final(self).service->0.state().webcam_users() == match event {
                            PrivacyEvent::WebcamOpen => s.state().webcam_users() + 1,
                            PrivacyEvent::WebcamClose => if s.state().webcam_users() - 1 > 0 {
                                s.state().webcam_users() - 1
                            } else {
                                0
                            },
                            _ => s.state().webcam_users() as int,
                        }
                    },
                    None => final(self).service is None,
                },
                PrivacyMessage::Event(ServiceEvent::Error(_)) => final(self).service == old(self).service,
            },
    {
        match message {
            PrivacyMessage::Event(event) => match event {
                ServiceEvent::Init(service) => {
                    self.service = Some(service);
                },
                ServiceEvent::Update(data) => {
                    match &mut self.service {
                        Some(privacy) => {
                            privacy.apply(data);
                        },
                        None => {},
                    }
                },
                ServiceEvent::Error(_) => {},
            },
        }
    }
}

/// The components so far after adding the finished part `part`: empty
/// parts (repeated or trailing separators) and `.` parts are dropped.
pub open spec fn keep_part(done: Seq<Seq<char>>, part: Seq<char>) -> Seq<Seq<char>> {
    if part.len() == 0 || part == seq!['.'] {
        done
    } else {
        done.push(part)
    }
}

/// Reading a path left to right: the components finished so far and the
/// part being read.
pub open spec fn parts_scan(s: Seq<char>) -> (Seq<Seq<char>>, Seq<char>)
    decreases s.len(),
{
    if s.len() == 0 {
        (Seq::empty(), Seq::empty())
    } else {
        let (done, part) = parts_scan(s.drop_last());
        if s.last() == '/' {
            (keep_part(done, part), Seq::empty())
        } else {
            (done, part.push(s.last()))
        }
    }
}

/// The named components of a path (`..` included), in order, without the
/// root, empty parts and `.` parts.
pub open spec fn path_parts(s: Seq<char>) -> Seq<Seq<char>> {
    keep_part(parts_scan(s).0, parts_scan(s).1)
}

/// Whether a path starts at the root.
pub open spec fn path_has_root(s: Seq<char>) -> bool {
    s.len() > 0 && s[0] == '/'
}

/// Whether a relative path starts with a `.` component, which is kept as the
/// current directory.
pub open spec fn path_has_cur_dir(s: Seq<char>) -> bool {
    &&& !path_has_root(s)
    &&& s.len() > 0
    &&& s[0] == '.'
    &&& (s.len() == 1 || s[1] == '/')
}

/// Whether two paths have the same components, as `Path` compares them:
/// repeated separators, a trailing separator and inner `.` components make
/// no difference.
pub open spec fn same_path(a: Seq<char>, b: Seq<char>) -> bool {
    &&& path_has_root(a) == path_has_root(b)
    &&& path_has_cur_dir(a) == path_has_cur_dir(b)
    &&& path_parts(a) == path_parts(b)
}

/// The character sequences of a list of parts.
pub open spec fn parts_view(parts: Seq<Vec<char>>) -> Seq<Seq<char>> {
    parts.map_values(|v: Vec<char>| v@)
}

/// A path split into what `Path` compares.
struct PathKey {
    has_root: bool,
    has_cur_dir: bool,
    parts: Vec<Vec<char>>,
}

impl PathKey {
    spec fn matches(&self, s: Seq<char>) -> bool {
        &&& self.has_root == path_has_root(s)
        &&& self.has_cur_dir == path_has_cur_dir(s)
        &&& parts_view(self.parts@) == path_parts(s)
    }
}

fn is_dot(part: &Vec<char>) -> (b: bool)
    ensures
        b == (part@ == seq!['.']),
{
    if part.len() == 1 && part[0] == '.' {
        assert(part@ =~= seq!['.']);
        true
    } else {
        false
    }
}

fn path_key(s: &str) -> (k: PathKey)
    ensures
        k.matches(s@),
{
    let n = s.unicode_len();
    let mut done: Vec<Vec<char>> = Vec::new();
    let mut part: Vec<char> = Vec::new();
    let mut i: usize = 0;
    while i < n
        invariant
            n == s@.len(),
            i <= n,
            parts_view(done@) == parts_scan(s@.take(i as int)).0,
            part@ == parts_scan(s@.take(i as int)).1,
        decreases n - i,
    {
        let c = s.get_char(i);
        proof {
            assert(s@.take(i + 1).drop_last() =~= s@.take(i as int));
            assert(s@.take(i + 1).last() == c);
        }
        let ghost old_done = parts_view(done@);
        let ghost old_part = part@;
        if c == '/' {
            if part.len() != 0 && !is_dot(&part) {
                done.push(part);
                proof {
                    assert(parts_view(done@) =~= old_done.push(old_part));
                }
            }
            part = Vec::new();
            proof {
                assert(part@ =~= Seq::<char>::empty());
            }
        } else {
            part.push(c);
        }
        i = i + 1;
    }
    proof {
        assert(s@.take(n as int) =~= s@);
    }
    let ghost before = parts_view(done@);
    let ghost last = part@;
    if part.len() != 0 && !is_dot(&part) {
        done.push(part);
        proof {
            assert(parts_view(done@) =~= before.push(last));
        }
    }
    let has_root = n > 0 && s.get_char(0) == '/';
    let has_cur_dir = !has_root && n > 0 && s.get_char(0) == '.' && (n == 1 || s.get_char(1)
        == '/');
    PathKey { has_root, has_cur_dir, parts: done }
}

fn chars_eq(a: &Vec<char>, b: &Vec<char>) -> (r: bool)
    ensures
        r == (a@ == b@),
{
    if a.len() != b.len() {
        return false;
    }
    let mut i: usize = 0;
    while i < a.len()
        invariant
            a@.len() == b@.len(),
            i <= a@.len(),
            forall|j: int| 0 <= j < i ==> a@[j] == b@[j],
        decreases a@.len() - i,
    {
        if a[i] != b[i] {
            return false;
        }
        i = i + 1;
    }
    assert(a@ =~= b@);
    true
}

fn same_key(a: &PathKey, b: &PathKey) -> (r: bool)
    ensures
        r == (a.has_root == b.has_root && a.has_cur_dir == b.has_cur_dir && parts_view(a.parts@)
            == parts_view(b.parts@)),
{
    if a.has_root != b.has_root || a.has_cur_dir != b.has_cur_dir {
        return false;
    }
    if a.parts.len() != b.parts.len() {
        proof {
            assert(parts_view(a.parts@).len() != parts_view(b.parts@).len());
        }
        return false;
    }
    let mut i: usize = 0;
    while i < a.parts.len()
        invariant
            a.parts@.len() == b.parts@.len(),
            i <= a.parts@.len(),
            forall|j: int| 0 <= j < i ==> a.parts@[j]@ == b.parts@[j]@,
        decreases a.parts@.len() - i,
    {
        if !chars_eq(&a.parts[i], &b.parts[i]) {
            proof {
                assert(parts_view(a.parts@)[i as int] != parts_view(b.parts@)[i as int]);
            }
            return false;
        }
        i = i + 1;
    }
    assert(parts_view(a.parts@) =~= parts_view(b.parts@));
    true
}

/// How many of `links` (the targets of every open file descriptor) are the
/// path `target`, compared as paths.
pub open spec fn users_of(links: Seq<String>, target: Seq<char>) -> nat
    decreases links.len(),
{
    if links.len() == 0 {
        0
    } else {
        users_of(links.drop_last(), target) + if same_path(links.last()@, target) {
            1nat
        } else {
            0nat
        }
    }
}

proof fn lemma_users_bound(links: Seq<String>, target: Seq<char>)
    ensures
        users_of(links, target) <= links.len(),
    decreases links.len(),
{
    if links.len() > 0 {
        lemma_users_bound(links.drop_last(), target);
    }
}

/// The number of processes' file descriptors that point at the device
/// `target`, given the targets of all open file descriptors; a link counts
/// when it is the same path as `target`.
pub fn count_device_users(links: &Vec<String>, target: &str) -> (n: i32)
    requires
        links@.len() <= i32::MAX,
    ensures
        n == users_of(links@, target@),
{
    let target_key = path_key(target);
    let mut n: i32 = 0;
    let mut i: usize = 0;
    while i < links.len()
        invariant
            i <= links@.len(),
            links@.len() <= i32::MAX,
            target_key.matches(target@),
            n == users_of(links@.take(i as int), target@),
        decreases links@.len() - i,
    {
        proof {
            assert(links@.take(i + 1).drop_last() =~= links@.take(i as int));
            assert(links@.take(i + 1).last() == links@[i as int]);
            lemma_users_bound(links@.take(i as int), target@);
        }
        let link_key = path_key(links[i].as_str());
        if same_key(&link_key, &target_key) {
            n = n + 1;
        }
        i = i + 1;
    }
    proof {
        assert(links@.take(links@.len() as int) =~= links@);
    }
    n
}

/// What a failure to watch the webcam means when the service starts: an
/// unavailable webcam is tolerated (the service runs without webcam
/// events), any other failure stops the start.
pub fn webcam_fallback(error: PrivacyError) -> (r: Result<(), PrivacyError>)
    ensures
        error is WebcamUnavailable ==> r is Ok,
        !(error is WebcamUnavailable) ==> r == Err::<(), PrivacyError>(error),
{
    match error {
        PrivacyError::WebcamUnavailable => Ok(()),
        other => Err(other),
    }
}

/// The error raised when one of the listeners stops: the PipeWire listener
/// or the webcam listener.
pub fn listener_closed(pipewire: bool) -> (e: PrivacyError)
    ensures
        e matches PrivacyError::Channel { context } && context@ == (if pipewire {
            "pipewire listener closed unexpectedly"@
        } else {
            "webcam listener closed unexpectedly"@
        }),
{
    if pipewire {
        PrivacyError::channel("pipewire listener closed unexpectedly".to_owned())
    } else {
        PrivacyError::channel("webcam listener closed unexpectedly".to_owned())
    }
}

/// Where the privacy service's listening loop stands. `webcam` tells
/// whether the webcam is watched (it is not when the device is missing).
#[derive(Debug, Clone, Copy, PartialEq, Eq, Structural)]
pub enum PrivacyLoopState {
    /// Nothing subscribed yet.
    Init,
    /// Waiting for the PipeWire subscription.
    SubscribingPipewire,
    /// Waiting for the webcam subscription.
    SubscribingWebcam,
    /// Publishing the initial, empty privacy data.
    PublishingInit { webcam: bool },
    /// Subscribed; the next event is to be awaited.
    Active { webcam: bool },
    /// Awaiting the next event of either listener.
    Listening { webcam: bool },
    /// Publishing an event that a listener reported.
    PublishingUpdate { webcam: bool },
    /// Publishing an error; the loop starts over once it is sent.
    PublishingError,
    /// An error could not be published: the loop ends.
    Stopped,
}

/// What the listening loop reports back.
#[derive(Debug)]
pub enum PrivacyLoopEvent {
    /// The loop is ready for its next step.
    Tick,
    /// A subscription (PipeWire or webcam, whichever was asked for)
    /// succeeded or failed.
    Subscribed(Result<(), PrivacyError>),
    /// A listener reported: `pipewire` tells which one, and `None` means
    /// that it closed.
    Received { pipewire: bool, event: Option<PrivacyEvent> },
    /// A publish went through or failed.
    Sent(Result<(), PrivacyError>),
}

/// What the listening loop is to do next.
#[derive(Debug, Clone, PartialEq, Eq)]
pub enum PrivacyLoopAction {
    /// Nothing; go on with a `Tick`.
    Continue,
    /// Subscribe to PipeWire's node events.
    SubscribePipewire,
    /// Subscribe to the webcam device's open and close events.
    SubscribeWebcam,
    /// Publish the service with empty privacy data.
    PublishInit,
    /// Await the next event of the PipeWire listener, and of the webcam
    /// listener when `webcam` holds.
    Listen { webcam: bool },
    /// Publish an event as an update.
    PublishUpdate(PrivacyEvent),
    /// Publish an error.
    PublishError(PrivacyError),
    /// End the loop.
    Stop,
}

/// One step of the privacy service's listening loop: subscribe to PipeWire,
/// then to the webcam (a missing webcam is tolerated and the loop runs
/// without it), publish the empty service, then forward each listener event
/// as an update. A failed subscription or publish, or a listener that
/// closes, publishes an error and starts over; when the error itself cannot
/// be published the loop ends. An event that does not fit the state
/// changes nothing.
pub open spec fn privacy_step_spec(
    state: PrivacyLoopState,
    event: PrivacyLoopEvent,
    next: PrivacyLoopState,
    action: PrivacyLoopAction,
) -> bool {
    match (state, event) {
        (PrivacyLoopState::Init, PrivacyLoopEvent::Tick) => next
            == PrivacyLoopState::SubscribingPipewire && action
            == PrivacyLoopAction::SubscribePipewire,
        (PrivacyLoopState::SubscribingPipewire, PrivacyLoopEvent::Subscribed(r)) => match r {
            Ok(()) => next == PrivacyLoopState::SubscribingWebcam && action
                == PrivacyLoopAction::SubscribeWebcam,
            Err(e) => next == PrivacyLoopState::PublishingError && action
                == PrivacyLoopAction::PublishError(e),
        },
        (PrivacyLoopState::SubscribingWebcam, PrivacyLoopEvent::Subscribed(r)) => match r {
            Ok(()) => next == (PrivacyLoopState::PublishingInit { webcam: true }) && action
                == PrivacyLoopAction::PublishInit,
            Err(e) => if e is WebcamUnavailable {
                next == (PrivacyLoopState::PublishingInit { webcam: false }) && action
                    == PrivacyLoopAction::PublishInit
            } else {
                next == PrivacyLoopState::PublishingError && action
                    == PrivacyLoopAction::PublishError(e)
            },
        },
        (PrivacyLoopState::PublishingInit { webcam }, PrivacyLoopEvent::Sent(r)) => match r {
            Ok(()) => next == (PrivacyLoopState::Active { webcam }) && action
                == PrivacyLoopAction::Continue,
            Err(e) => next == PrivacyLoopState::PublishingError && action
                == PrivacyLoopAction::PublishError(e),
        },
        (PrivacyLoopState::Active { webcam }, PrivacyLoopEvent::Tick) => next
            == (PrivacyLoopState::Listening { webcam }) && action == (PrivacyLoopAction::Listen {
            webcam,
        }),
        (PrivacyLoopState::Listening { webcam }, PrivacyLoopEvent::Received { pipewire, event }) =>
            match event {
            Some(ev) => next == (PrivacyLoopState::PublishingUpdate { webcam }) && action
                == PrivacyLoopAction::PublishUpdate(ev),
            None => {
                &&& next == PrivacyLoopState::PublishingError
                &&& action matches PrivacyLoopAction::PublishError(e) && is_closed_listener_error(
                    e,
                    pipewire,
                )
            },
        },
        (PrivacyLoopState::PublishingUpdate { webcam }, PrivacyLoopEvent::Sent(r)) => match r {
            Ok(()) => next == (PrivacyLoopState::Active { webcam }) && action
                == PrivacyLoopAction::Continue,
            Err(e) => next == PrivacyLoopState::PublishingError && action
                == PrivacyLoopAction::PublishError(e),
        },
        (PrivacyLoopState::PublishingError, PrivacyLoopEvent::Sent(r)) => match r {
            Ok(()) => next == PrivacyLoopState::Init && action == PrivacyLoopAction::Continue,
            Err(_) => next == PrivacyLoopState::Stopped && action == PrivacyLoopAction::Stop,
        },
        _ => next == state && action == PrivacyLoopAction::Continue,
    }
}

/// Whether `e` is the error raised when a listener closes: the PipeWire
/// listener when `pipewire` holds, else the webcam listener.
pub open spec fn is_closed_listener_error(e: PrivacyError, pipewire: bool) -> bool {
    e matches PrivacyError::Channel { context } && context@ == (if pipewire {
        "pipewire listener closed unexpectedly"@
    } else {
        "webcam listener closed unexpectedly"@
    })
}

/// One step of the privacy service's listening loop; see
/// [`privacy_step_spec`].
pub fn privacy_step(state: PrivacyLoopState, event: PrivacyLoopEvent) -> (r: (
    PrivacyLoopState,
    PrivacyLoopAction,
))
    ensures
        privacy_step_spec(state, event, r.0, r.1),
{
    match (state, event) {
        (PrivacyLoopState::Init, PrivacyLoopEvent::Tick) => (
            PrivacyLoopState::SubscribingPipewire,
            PrivacyLoopAction::SubscribePipewire,
        ),
        (PrivacyLoopState::SubscribingPipewire, PrivacyLoopEvent::Subscribed(r)) => match r {
            Ok(()) => (PrivacyLoopState::SubscribingWebcam, PrivacyLoopAction::SubscribeWebcam),
            Err(e) => (PrivacyLoopState::PublishingError, PrivacyLoopAction::PublishError(e)),
        },
        (PrivacyLoopState::SubscribingWebcam, PrivacyLoopEvent::Subscribed(r)) => match r {
            Ok(()) => (
                PrivacyLoopState::PublishingInit { webcam: true },
                PrivacyLoopAction::PublishInit,
            ),
            Err(e) => match webcam_fallback(e) {
                Ok(()) => (
                    PrivacyLoopState::PublishingInit { webcam: false },
                    PrivacyLoopAction::PublishInit,
                ),
                Err(other) => (
                    PrivacyLoopState::PublishingError,
                    PrivacyLoopAction::PublishError(other),
                ),
            },
        },
        (PrivacyLoopState::PublishingInit { webcam }, PrivacyLoopEvent::Sent(r)) => match r {
            Ok(()) => (PrivacyLoopState::Active { webcam }, PrivacyLoopAction::Continue),
            Err(e) => (PrivacyLoopState::PublishingError, PrivacyLoopAction::PublishError(e)),
        },
        (PrivacyLoopState::Active { webcam }, PrivacyLoopEvent::Tick) => (
            PrivacyLoopState::Listening { webcam },
            PrivacyLoopAction::Listen { webcam },
        ),
        (PrivacyLoopState::Listening { webcam }, PrivacyLoopEvent::Received { pipewire, event }) =>
            match event {
            Some(ev) => (
                PrivacyLoopState::PublishingUpdate { webcam },
                PrivacyLoopAction::PublishUpdate(ev),
            ),
            None => (
                PrivacyLoopState::PublishingError,
                PrivacyLoopAction::PublishError(listener_closed(pipewire)),
            ),
        },
        (PrivacyLoopState::PublishingUpdate { webcam }, PrivacyLoopEvent::Sent(r)) => match r {
            Ok(()) => (PrivacyLoopState::Active { webcam }, PrivacyLoopAction::Continue),
            Err(e) => (PrivacyLoopState::PublishingError, PrivacyLoopAction::PublishError(e)),
        },
        (PrivacyLoopState::PublishingError, PrivacyLoopEvent::Sent(r)) => match r {
            Ok(()) => (PrivacyLoopState::Init, PrivacyLoopAction::Continue),
            Err(_) => (PrivacyLoopState::Stopped, PrivacyLoopAction::Stop),
        },
        (state, _) => (state, PrivacyLoopAction::Continue),
    }
}

/// The indicators shown for privacy data: screen sharing, webcam and
/// microphone, in that order, each when in use.
pub open spec fn shown_icons(d: PrivacyData) -> Seq<Icons> {
    (if uses_media(d.nodes_view(), Media::Video) {
        seq![Icons::ScreenShare]
    } else {
        Seq::<Icons>::empty()
    }) + (if d.webcam_users() > 0 {
        seq![Icons::Webcam]
    } else {
        Seq::<Icons>::empty()
    }) + (if uses_media(d.nodes_view(), Media::Audio) {
        seq![Icons::Mic1]
    } else {
        Seq::<Icons>::empty()
    })
}

impl Privacy {
    /// The indicators the module shows: none before the service starts or
    /// while nothing is in use, otherwise [`shown_icons`].
    pub fn indicators(&self) -> (r: Option<Vec<Icons>>)
        ensures
            match self.service {
                Some(s) => if s.state().nodes_view().len() == 0 && s.state().webcam_users() == 0 {
                    r is None
                } else {
                    r matches Some(v) && v@ == shown_icons(s.state())
                },
                None => r is None,
            },
    {
        match &self.service {
            Some(service) => {
                let data = service.data();
                if data.no_access() {
                    return None;
                }
                let mut icons: Vec<Icons> = Vec::new();
                if data.screenshare_access() {
                    icons.push(Icons::ScreenShare);
                }
                if data.webcam_access() {
                    icons.push(Icons::Webcam);
                }
                if data.microphone_access() {
                    icons.push(Icons::Mic1);
                }
                assert(icons@ =~= shown_icons(service.state()));
                Some(icons)
            },
            None => None,
        }
    }
}

} // verus!
