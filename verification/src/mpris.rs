//! Media players over MPRIS: playback status, track metadata and service
//! names.

use vstd::prelude::*;
use vstd::std_specs::convert::FromSpecImpl;
use crate::text::{concat2, concat3, str_eq};

verus! {

/// Playback state reported by a media player.
#[derive(Debug, Clone, Copy, PartialEq, Eq, Structural)]
pub enum PlaybackStatus {
    Playing,
    Paused,
    Stopped,
}

impl Default for PlaybackStatus {
    fn default() -> (s: Self)
        ensures
            s == PlaybackStatus::Playing,
    {
        PlaybackStatus::Playing
    }
}

/// The status named by an MPRIS `PlaybackStatus` string; unknown names are
/// taken as playing.
pub open spec fn playback_status_of(name: Seq<char>) -> PlaybackStatus {
    if name == "Playing"@ {
        PlaybackStatus::Playing
    } else if name == "Paused"@ {
        PlaybackStatus::Paused
    } else if name == "Stopped"@ {
        PlaybackStatus::Stopped
    } else {
        PlaybackStatus::Playing
    }
}

impl From<String> for PlaybackStatus {
    fn from(playback_status: String) -> (s: PlaybackStatus) {
        let name = playback_status.as_str();
        if str_eq(name, "Playing") {
            PlaybackStatus::Playing
        } else if str_eq(name, "Paused") {
            PlaybackStatus::Paused
        } else if str_eq(name, "Stopped") {
            PlaybackStatus::Stopped
        } else {
            PlaybackStatus::Playing
        }
    }
}

impl FromSpecImpl<String> for PlaybackStatus {
    open spec fn obeys_from_spec() -> bool {
        true
    }

    open spec fn from_spec(v: String) -> PlaybackStatus {
        playback_status_of(v@)
    }
}

/// The MPRIS status names: `Playing`, `Paused` and `Stopped` name the three
/// statuses, and a player reporting any other name is taken as playing.
pub proof fn lemma_playback_status_names(name: Seq<char>)
    ensures
        playback_status_of("Playing"@) == PlaybackStatus::Playing,
        playback_status_of("Paused"@) == PlaybackStatus::Paused,
        playback_status_of("Stopped"@) == PlaybackStatus::Stopped,
        playback_status_of(name) == PlaybackStatus::Paused <==> name == "Paused"@,
        playback_status_of(name) == PlaybackStatus::Stopped <==> name == "Stopped"@,
{
    reveal_strlit("Playing");
    reveal_strlit("Paused");
    reveal_strlit("Stopped");
    assert("Playing"@.len() == 7 && "Paused"@.len() == 6 && "Stopped"@.len() == 7);
    assert("Playing"@[0] != "Stopped"@[0]);
}

/// The strings of `parts` joined by `sep`.
pub open spec fn joined(parts: Seq<Seq<char>>, sep: Seq<char>) -> Seq<char>
    decreases parts.len(),
{
    if parts.len() == 0 {
        Seq::empty()
    } else if parts.len() == 1 {
        parts[0]
    } else {
        joined(parts.drop_last(), sep) + sep + parts.last()
    }
}

/// The views of a list of strings.
pub open spec fn string_views(v: Seq<String>) -> Seq<Seq<char>> {
    v.map_values(|s: String| s@)
}

/// Joins `parts` with `sep`.
pub fn join_strings(parts: &Vec<String>, sep: &str) -> (r: String)
    ensures
        r@ == joined(string_views(parts@), sep@),
{
    let ghost views = string_views(parts@);
    let mut r = String::new();
    let mut i: usize = 0;
    while i < parts.len()
        invariant
            i <= parts@.len(),
            views == string_views(parts@),
            r@ == joined(views.take(i as int), sep@),
        decreases parts.len() - i,
    {
        assert(views.take(i + 1).drop_last() =~= views.take(i as int));
        assert(views[i as int] == parts@[i as int]@);
        if i != 0 {
            r.append(sep);
        } else {
            assert(r@ =~= Seq::<char>::empty());
        }
        r.append(parts[i].as_str());
        assert(r@ =~= joined(views.take(i + 1), sep@));
        i = i + 1;
    }
    assert(views.take(parts@.len() as int) =~= views);
    r
}

/// Track metadata exposed by a media player.
#[derive(PartialEq, Eq, Debug, Clone)]
pub struct MprisPlayerMetadata {
    /// Artists of the current track.
    pub artists: Option<Vec<String>>,
    /// Title of the current track.
    pub title: Option<String>,
}

/// How metadata is shown: `artists - title`, either part alone when the
/// other is missing, and nothing when both are; artists are joined by `, `.
pub open spec fn metadata_text(m: MprisPlayerMetadata) -> Seq<char> {
    match (m.artists, m.title) {
        (None, None) => Seq::empty(),
        (None, Some(t)) => t@,
        (Some(a), None) => joined(string_views(a@), ", "@),
        (Some(a), Some(t)) => joined(string_views(a@), ", "@) + " - "@ + t@,
    }
}

/// Whether `part` occurs somewhere in `text`.
pub open spec fn occurs_in(part: Seq<char>, text: Seq<char>) -> bool {
    exists|k: int| 0 <= k && k + part.len() <= text.len() && #[trigger] text.subrange(k, k + part.len()) == part
}

proof fn lemma_occurs_in_prefix(part: Seq<char>, p: Seq<char>, q: Seq<char>)
    requires
        occurs_in(part, p),
    ensures
        occurs_in(part, p + q),
{
    let k = choose|k: int| 0 <= k && k + part.len() <= p.len() && #[trigger] p.subrange(k, k + part.len()) == part;
    assert((p + q).subrange(k, k + part.len()) =~= p.subrange(k, k + part.len()));
}

/// Joining puts every part into the text, the first one at the start and
/// each later one right after a separator.
pub proof fn lemma_joined_holds_parts(parts: Seq<Seq<char>>, sep: Seq<char>)
    ensures
        parts.len() > 0 ==> parts[0].is_prefix_of(joined(parts, sep)),
        forall|i: int| 0 <= i < parts.len() ==> occurs_in(#[trigger] parts[i], joined(parts, sep)),
        forall|i: int| 1 <= i < parts.len() ==> occurs_in(sep + #[trigger] parts[i], joined(parts, sep)),
    decreases parts.len(),
{
    if parts.len() == 1 {
        let k: int = 0;
        assert(joined(parts, sep).subrange(0, parts[0].len() as int) =~= parts[0]);
        assert(joined(parts, sep).subrange(k, k + parts[0].len()) =~= parts[0]);
    } else if parts.len() > 1 {
        let init = parts.drop_last();
        let last = parts.last();
        lemma_joined_holds_parts(init, sep);
        let ji = joined(init, sep);
        let j = joined(parts, sep);
        assert(j == ji + (sep + last));
        assert(j =~= ji + sep + last);
        assert(parts[0] == init[0]);
        assert(j.subrange(0, parts[0].len() as int) =~= ji.subrange(0, parts[0].len() as int));
        assert forall|i: int| 0 <= i < parts.len() implies occurs_in(#[trigger] parts[i], j) by {
            if i < parts.len() - 1 {
                assert(parts[i] == init[i]);
                assert(occurs_in(init[i], ji));
                lemma_occurs_in_prefix(init[i], ji, sep + last);
            } else {
                let k = (ji.len() + sep.len()) as int;
                assert(j.subrange(k, k + last.len()) =~= last);
            }
        }
        assert forall|i: int| 1 <= i < parts.len() implies occurs_in(sep + #[trigger] parts[i], j) by {
            if i < parts.len() - 1 {
                assert(parts[i] == init[i]);
                assert(occurs_in(sep + init[i], ji));
                lemma_occurs_in_prefix(sep + init[i], ji, sep + last);
            } else {
                let k = ji.len() as int;
                assert(j.subrange(k, k + (sep + last).len()) =~= sep + last);
            }
        }
    }
}

/// What a metadata text shows, for a title `t` and artists `a`: with both,
/// the artists (the first one leading, the others each after `, `) then
/// ` - ` and the title at the end; with one of them, that one; with
/// neither, nothing.
pub open spec fn shows_track(text: Seq<char>, artists: Option<Seq<Seq<char>>>, title: Option<Seq<char>>) -> bool {
    match (artists, title) {
        (None, None) => text.len() == 0,
        (None, Some(t)) => text == t,
        (Some(a), None) => shows_artists(text, a),
        (Some(a), Some(t)) => {
            let p = text.len() - t.len() - 3;
            &&& p >= 0
            &&& text.subrange(p, text.len() as int) == " - "@ + t
            &&& shows_artists(text.subrange(0, p), a)
        },
    }
}

/// Whether `text` lists the artists `a`: the first one leads, every one
/// occurs, and each one after the first follows `, `.
pub open spec fn shows_artists(text: Seq<char>, a: Seq<Seq<char>>) -> bool {
    &&& a.len() > 0 ==> a[0].is_prefix_of(text)
    &&& forall|i: int| 0 <= i < a.len() ==> occurs_in(#[trigger] a[i], text)
    &&& forall|i: int| 1 <= i < a.len() ==> occurs_in(", "@ + #[trigger] a[i], text)
}

/// The shown text of a track's metadata: `artists - title` with the artists
/// joined by `, `, or whichever of the two is present.
pub proof fn lemma_metadata_text_shows_track(m: MprisPlayerMetadata)
    ensures
        shows_track(
            metadata_text(m),
            match m.artists {
                Some(a) => Some(string_views(a@)),
                None => None,
            },
            match m.title {
                Some(t) => Some(t@),
                None => None,
            },
        ),
{
    reveal_strlit(" - ");
    match (m.artists, m.title) {
        (Some(a), None) => {
            lemma_joined_holds_parts(string_views(a@), ", "@);
        },
        (Some(a), Some(t)) => {
            let jn = joined(string_views(a@), ", "@);
            lemma_joined_holds_parts(string_views(a@), ", "@);
            let text = metadata_text(m);
            assert(text == jn + " - "@ + t@);
            let p = text.len() - t@.len() - 3;
            assert(p == jn.len());
            assert(text.subrange(p, text.len() as int) =~= " - "@ + t@);
            assert(text.subrange(0, p) =~= jn);
        },
        _ => {},
    }
}

impl MprisPlayerMetadata {
    /// Metadata from the `xesam:artist` and `xesam:title` entries of a
    /// player's metadata map, each absent when the entry is missing or of
    /// another type.
    pub fn from_entries(artists: Option<Vec<String>>, title: Option<String>) -> (m: Self)
        ensures
            m.artists == artists,
            m.title == title,
    {
        MprisPlayerMetadata { artists, title }
    }

    /// The text shown for the track.
    pub fn to_string(&self) -> (s: String)
        ensures
            s@ == metadata_text(*self),
            shows_track(
                s@,
                match self.artists {
                    Some(a) => Some(string_views(a@)),
                    None => None,
                },
                match self.title {
                    Some(t) => Some(t@),
                    None => None,
                },
            ),
    {
        proof {
            lemma_metadata_text_shows_track(*self);
        }
        match (&self.artists, &self.title) {
            (None, None) => String::new(),
            (None, Some(title)) => title.clone(),
            (Some(artists), None) => join_strings(artists, ", "),
            (Some(artists), Some(title)) => {
                let a = join_strings(artists, ", ");
                concat3(a.as_str(), " - ", title.as_str())
            },
        }
    }
}

/// Prefix of the bus names of MPRIS media players.
pub const MPRIS_PLAYER_SERVICE_PREFIX: &'static str = "org.mpris.MediaPlayer2.";

/// Whether `name` is the bus name of an MPRIS media player: it starts with
/// `org.mpris.MediaPlayer2.`.
pub fn is_mpris_service(name: &str) -> (b: bool)
    ensures
        b == (name@.len() >= "org.mpris.MediaPlayer2."@.len() && name@.take(
            "org.mpris.MediaPlayer2."@.len() as int,
        ) == "org.mpris.MediaPlayer2."@),
{
    let prefix = MPRIS_PLAYER_SERVICE_PREFIX;
    let n = name.unicode_len();
    let p = prefix.unicode_len();
    if n < p {
        return false;
    }
    let head = name.substring_char(0, p);
    str_eq(head, prefix)
}

/// Error of a bar module.
#[derive(Debug, Clone, PartialEq, Eq)]
pub enum ModuleError {
    /// Registering the module with its service failed.
    Registration { reason: String },
}

impl ModuleError {
    /// A registration error.
    pub fn registration(reason: String) -> (e: Self)
        ensures
            e == (ModuleError::Registration { reason }),
    {
        ModuleError::Registration { reason }
    }

    /// The human readable description of the error.
    pub fn to_string(&self) -> (s: String)
        ensures
            s@ == match *self {
                ModuleError::Registration { reason } => "Module registration failed: "@ + reason@,
            },
    {
        match self {
            ModuleError::Registration { reason } => concat2(
                "Module registration failed: ",
                reason.as_str(),
            ),
        }
    }
}

/// A registration error whose reason is `context: err`.
pub fn module_error(context: &str, err: &str) -> (e: ModuleError)
    ensures
        e matches ModuleError::Registration { reason } && reason@ == context@ + ": "@ + err@,
{
    ModuleError::Registration { reason: concat3(context, ": ", err) }
}

/// Whether `name` is the bus name of an MPRIS media player.
pub open spec fn is_mpris_name(name: Seq<char>) -> bool {
    name.len() >= "org.mpris.MediaPlayer2."@.len() && name.take(
        "org.mpris.MediaPlayer2."@.len() as int,
    ) == "org.mpris.MediaPlayer2."@
}

/// The bus names of MPRIS media players among `names`, in order.
pub open spec fn mpris_names(names: Seq<String>) -> Seq<String>
    decreases names.len(),
{
    if names.len() == 0 {
        names
    } else if is_mpris_name(names.last()@) {
        mpris_names(names.drop_last()).push(names.last())
    } else {
        mpris_names(names.drop_last())
    }
}

/// The bus names of the MPRIS media players among the names on the bus.
pub fn mpris_services(names: &Vec<String>) -> (r: Vec<String>)
    ensures
        r@ == mpris_names(names@),
{
    let mut out: Vec<String> = Vec::new();
    let mut i: usize = 0;
    while i < names.len()
        invariant
            i <= names@.len(),
            out@ == mpris_names(names@.take(i as int)),
        decreases names@.len() - i,
    {
        proof {
            assert(names@.take(i + 1).drop_last() =~= names@.take(i as int));
            assert(names@.take(i + 1).last() == names@[i as int]);
        }
        if is_mpris_service(names[i].as_str()) {
            out.push(names[i].clone());
        }
        i = i + 1;
    }
    proof {
        assert(names@.take(names@.len() as int) =~= names@);
    }
    out
}

/// A media player; `V` is its volume.
#[derive(Debug, Clone)]
pub struct MprisPlayerData<V> {
    pub service: String,
    pub metadata: Option<MprisPlayerMetadata>,
    pub volume: Option<V>,
    pub state: PlaybackStatus,
}

/// A change to the media players.
#[derive(Debug, Clone)]
pub enum MprisPlayerEvent<V> {
    Refresh(Vec<MprisPlayerData<V>>),
    Metadata(String, Option<MprisPlayerMetadata>),
    Volume(String, Option<V>),
    State(String, PlaybackStatus),
}

/// The media players known to the bar.
#[derive(Debug, Clone)]
pub struct MprisPlayerService<V> {
    pub data: Vec<MprisPlayerData<V>>,
}

/// Whether `i` is the first player with bus name `service`.
pub open spec fn is_first_player<V>(players: Seq<MprisPlayerData<V>>, service: Seq<char>, i: int) -> bool {
    &&& 0 <= i < players.len()
    &&& players[i].service@ == service
    &&& forall|j: int| 0 <= j < i ==> (#[trigger] players[j]).service@ != service
}

/// Whether no player has bus name `service`.
pub open spec fn no_player<V>(players: Seq<MprisPlayerData<V>>, service: Seq<char>) -> bool {
    forall|j: int| 0 <= j < players.len() ==> (#[trigger] players[j]).service@ != service
}

/// `new` is `old` with the first player named `service` changed by `f`, or
/// `old` itself when no player has that name.
pub open spec fn player_changed<V>(
    old: Seq<MprisPlayerData<V>>,
    new: Seq<MprisPlayerData<V>>,
    service: Seq<char>,
    f: spec_fn(MprisPlayerData<V>) -> MprisPlayerData<V>,
) -> bool {
    if no_player(old, service) {
        new == old
    } else {
        exists|i: int| is_first_player(old, service, i) && new == old.update(i, f(old[i]))
    }
}

/// The position of the first player with bus name `service`.
fn find_player<V>(players: &Vec<MprisPlayerData<V>>, service: &str) -> (r: Option<usize>)
    ensures
        r matches Some(i) ==> is_first_player(players@, service@, i as int),
        r is None ==> no_player(players@, service@),
{
    let mut i: usize = 0;
    while i < players.len()
        invariant
            i <= players@.len(),
            forall|j: int| 0 <= j < i ==> (#[trigger] players@[j]).service@ != service@,
        decreases players@.len() - i,
    {
        if str_eq(players[i].service.as_str(), service) {
            return Some(i);
        }
        i = i + 1;
    }
    None
}

impl<V> MprisPlayerService<V> {
    /// The service with the given players.
    pub fn new(data: Vec<MprisPlayerData<V>>) -> (s: Self)
        ensures
            s.data == data,
    {
        MprisPlayerService { data }
    }

    /// Applies a change: a refresh replaces all players; the other changes
    /// go to the first player with the event's bus name.
    pub fn update(&mut self, event: MprisPlayerEvent<V>)
        ensures
            match event {
                MprisPlayerEvent::Refresh(data) => final(self).data == data,
                MprisPlayerEvent::Metadata(service, metadata) => player_changed(
                    old(self).data@,
                    final(self).data@,
                    service@,
                    |p: MprisPlayerData<V>| MprisPlayerData { metadata, ..p },
                ),
                MprisPlayerEvent::Volume(service, volume) => player_changed(
                    old(self).data@,
                    final(self).data@,
                    service@,
                    |p: MprisPlayerData<V>| MprisPlayerData { volume, ..p },
                ),
                MprisPlayerEvent::State(service, state) => player_changed(
                    old(self).data@,
                    final(self).data@,
                    service@,
                    |p: MprisPlayerData<V>| MprisPlayerData { state, ..p },
                ),
            },
    {
        match event {
            MprisPlayerEvent::Refresh(data) => {
                self.data = data;
            },
            MprisPlayerEvent::Metadata(service, metadata) => {
                match find_player(&self.data, service.as_str()) {
                    Some(i) => {
                        let mut player = self.data.remove(i);
                        player.metadata = metadata;
                        self.data.insert(i, player);
                        proof {
                            assert(self.data@ =~= old(self).data@.update(
                                i as int,
                                MprisPlayerData { metadata: self.data@[i as int].metadata, ..old(self).data@[i as int] },
                            ));
                        }
                    },
                    None => {},
                }
            },
            MprisPlayerEvent::Volume(service, volume) => {
                match find_player(&self.data, service.as_str()) {
                    Some(i) => {
                        let mut player = self.data.remove(i);
                        player.volume = volume;
                        self.data.insert(i, player);
                        proof {
                            assert(self.data@ =~= old(self).data@.update(
                                i as int,
                                MprisPlayerData { volume: self.data@[i as int].volume, ..old(self).data@[i as int] },
                            ));
                        }
                    },
                    None => {},
                }
            },
            MprisPlayerEvent::State(service, state) => {
                match find_player(&self.data, service.as_str()) {
                    Some(i) => {
                        let mut player = self.data.remove(i);
                        player.state = state;
                        self.data.insert(i, player);
                        proof {
                            assert(self.data@ =~= old(self).data@.update(
                                i as int,
                                MprisPlayerData { state: self.data@[i as int].state, ..old(self).data@[i as int] },
                            ));
                        }
                    },
                    None => {},
                }
            },
        }
    }
}

/// A player action; `V` is a volume.
#[derive(Debug, Clone)]
pub enum PlayerCommand<V> {
    /// Back to the previous item.
    Prev,
    /// Toggle between playing and paused.
    PlayPause,
    /// On to the next item.
    Next,
    /// Set the volume, in percent.
    Volume(V),
}

/// An action for the player with bus name `service_name`.
#[derive(Debug, Clone)]
pub struct MprisPlayerCommand<V> {
    pub service_name: String,
    pub command: PlayerCommand<V>,
}

impl<V> MprisPlayerCommand<V> {
    /// A command for `service_name`.
    pub fn new(service_name: String, command: PlayerCommand<V>) -> (c: Self)
        ensures
            c.service_name == service_name,
            c.command == command,
    {
        MprisPlayerCommand { service_name, command }
    }
}

/// Which player a command goes to: the first with the command's bus name.
/// Fails when the service has not started or no player has that name.
pub fn command_target<V, W>(service: Option<&MprisPlayerService<V>>, command: &MprisPlayerCommand<W>) -> (r: Result<usize, ModuleError>)
    ensures
        service is None ==> (r matches Err(ModuleError::Registration { reason }) && reason@
            == "MPRIS player service is not initialised"@),
        service matches Some(s) && no_player(s.data@, command.service_name@) ==> (r matches Err(
            ModuleError::Registration { reason },
        ) && reason@ == "unknown MPRIS service '"@ + command.service_name@ + "'"@),
        service is Some && !no_player(service->0.data@, command.service_name@) ==> (r matches Ok(i)
            && is_first_player(service->0.data@, command.service_name@, i as int)),
{
    match service {
        None => Err(ModuleError::registration("MPRIS player service is not initialised".to_owned())),
        Some(s) => match find_player(&s.data, command.service_name.as_str()) {
            Some(i) => Ok(i),
            None => Err(
                ModuleError::registration(
                    concat3("unknown MPRIS service '", command.service_name.as_str(), "'"),
                ),
            ),
        },
    }
}

/// What the player listener hears: a player appeared or left, or a player
/// changed.
#[derive(Debug, Clone)]
pub enum ListenerEvent<V> {
    NameOwner,
    Metadata(String, Option<MprisPlayerMetadata>),
    Volume(String, Option<V>),
    State(String, PlaybackStatus),
}

/// The update a listener event forwards; none for a change of bus names.
pub open spec fn forwarded<V>(e: ListenerEvent<V>) -> Option<MprisPlayerEvent<V>> {
    match e {
        ListenerEvent::NameOwner => None,
        ListenerEvent::Metadata(s, m) => Some(MprisPlayerEvent::Metadata(s, m)),
        ListenerEvent::Volume(s, v) => Some(MprisPlayerEvent::Volume(s, v)),
        ListenerEvent::State(s, st) => Some(MprisPlayerEvent::State(s, st)),
    }
}

/// The updates of a batch of listener events, in order.
pub open spec fn forwarded_all<V>(events: Seq<ListenerEvent<V>>) -> Seq<MprisPlayerEvent<V>>
    decreases events.len(),
{
    if events.len() == 0 {
        Seq::empty()
    } else {
        match forwarded(events.last()) {
            Some(u) => forwarded_all(events.drop_last()).push(u),
            None => forwarded_all(events.drop_last()),
        }
    }
}

/// A batch of listener events: the updates to publish, in order, and
/// whether the players must be read again (a bus name changed).
pub fn handle_chunk<V>(events: Vec<ListenerEvent<V>>) -> (r: (Vec<MprisPlayerEvent<V>>, bool))
    ensures
        r.0@ == forwarded_all(events@),
        r.1 == exists|i: int| 0 <= i < events@.len() && events@[i] is NameOwner,
{
    let ghost all = events@;
    let n = events.len();
    let mut rest = events;
    let mut updates: Vec<MprisPlayerEvent<V>> = Vec::new();
    let mut refresh = false;
    let mut i: usize = 0;
    while i < n
        invariant
            n == all.len(),
            i <= n,
            rest@ == all.subrange(i as int, n as int),
            updates@ == forwarded_all(all.take(i as int)),
            refresh == exists|j: int| 0 <= j < i && all[j] is NameOwner,
        decreases n - i,
    {
        let e = rest.remove(0);
        proof {
            assert(all.take(i + 1).drop_last() =~= all.take(i as int));
            assert(all.take(i + 1).last() == all[i as int]);
        }
        match e {
            ListenerEvent::NameOwner => {
                refresh = true;
            },
            ListenerEvent::Metadata(s, m) => {
                updates.push(MprisPlayerEvent::Metadata(s, m));
            },
            ListenerEvent::Volume(s, v) => {
                updates.push(MprisPlayerEvent::Volume(s, v));
            },
            ListenerEvent::State(s, st) => {
                updates.push(MprisPlayerEvent::State(s, st));
            },
        }
        i = i + 1;
        proof {
            assert(rest@ =~= all.subrange(i as int, n as int));
        }
    }
    proof {
        assert(all.take(n as int) =~= all);
    }
    (updates, refresh)
}

} // verus!
