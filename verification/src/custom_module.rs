//! User-defined modules: a listener command prints one JSON object per line,
//! and the module shows an icon, an alert dot and a text chosen from the
//! latest line and the module's configuration.

use vstd::prelude::*;
use vstd::utf8::{encode_scalar, encode_utf8};
use crate::config::CustomModuleDef;
use crate::config::regex_cfg::{regex_matches, RegexCfg};
use crate::icons::Icons;
use crate::services::{ReadOnlyService, ServiceEvent};
use crate::text::{concat2, concat3, i64_to_decimal, int_decimal};

verus! {

/// Most bytes of a listener line quoted in a parse error.
pub const SNIPPET_MAX_BYTES: usize = 120;

/// One line of a listener's output.
#[derive(Debug, Clone)]
pub struct CustomListenData {
    /// Value matched against the module's icon and alert patterns.
    pub alt: String,
    /// Text shown beside the icon.
    pub text: Option<String>,
}

impl Default for CustomListenData {
    fn default() -> (d: Self)
        ensures
            d.alt@ == Seq::<char>::empty(),
            d.text is None,
    {
        CustomListenData { alt: String::new(), text: None }
    }
}

/// The service that feeds a custom module.
#[derive(Debug, Clone, Default)]
pub struct CustomCommandService;

impl ReadOnlyService for CustomCommandService {
    type UpdateEvent = CustomListenData;
    type Error = CustomCommandError;
}

/// Failure of a custom module's listener; the payloads are the underlying
/// errors' messages.
#[derive(Debug, Clone)]
pub enum CustomCommandError {
    Spawn(String),
    MissingStdout,
    Read(String),
    Parse { snippet: String, error: String },
    Wait(String),
    NonZeroExit { status: Option<i32> },
    ChannelClosed,
}

/// The short message the module shows for an error.
pub open spec fn display_message(e: CustomCommandError) -> Seq<char> {
    match e {
        CustomCommandError::Parse { snippet, .. } => "Invalid output: "@ + snippet@,
        CustomCommandError::NonZeroExit { status } => match status {
            Some(code) => "Listener exited with status "@ + int_decimal(code as int),
            None => "Listener exited due to signal"@,
        },
        CustomCommandError::ChannelClosed => "Listener updates queue closed"@,
        CustomCommandError::MissingStdout => "Listener stdout unavailable"@,
        CustomCommandError::Spawn(_) => "Listener IO failure"@,
        CustomCommandError::Read(_) => "Listener IO failure"@,
        CustomCommandError::Wait(_) => "Listener IO failure"@,
    }
}

/// `Some(code)` or `None`, as `Debug` writes an optional exit code.
pub open spec fn status_debug(status: Option<i32>) -> Seq<char> {
    match status {
        Some(code) => "Some("@ + int_decimal(code as int) + ")"@,
        None => "None"@,
    }
}

/// The full description of an error.
pub open spec fn error_text(e: CustomCommandError) -> Seq<char> {
    match e {
        CustomCommandError::Spawn(m) => "failed to spawn custom module listener process: "@ + m@,
        CustomCommandError::MissingStdout => "custom module listener did not expose stdout"@,
        CustomCommandError::Read(m) => "failed to read line from custom module output: "@ + m@,
        CustomCommandError::Parse { snippet, error } => "failed to parse custom module output: "@
            + snippet@ + " ("@ + error@ + ")"@,
        CustomCommandError::Wait(m) => "failed to wait for custom module process: "@ + m@,
        CustomCommandError::NonZeroExit { status } => "custom module process exited unsuccessfully ("@
            + status_debug(status) + ")"@,
        CustomCommandError::ChannelClosed => "custom module updates channel closed"@,
    }
}

impl CustomCommandError {
    /// The short message the module shows for the error.
    pub fn to_display_message(&self) -> (s: String)
        ensures
            s@ == display_message(*self),
    {
        match self {
            CustomCommandError::Parse { snippet, .. } => concat2(
                "Invalid output: ",
                snippet.as_str(),
            ),
            CustomCommandError::NonZeroExit { status } => match status {
                Some(code) => {
                    let digits = i64_to_decimal(*code as i64);
                    concat2("Listener exited with status ", digits.as_str())
                },
                None => "Listener exited due to signal".to_owned(),
            },
            CustomCommandError::ChannelClosed => "Listener updates queue closed".to_owned(),
            CustomCommandError::MissingStdout => "Listener stdout unavailable".to_owned(),
            CustomCommandError::Spawn(_) => "Listener IO failure".to_owned(),
            CustomCommandError::Read(_) => "Listener IO failure".to_owned(),
            CustomCommandError::Wait(_) => "Listener IO failure".to_owned(),
        }
    }

    /// The full description of the error.
    pub fn to_string(&self) -> (s: String)
        ensures
            s@ == error_text(*self),
    {
        match self {
            CustomCommandError::Spawn(m) => concat2(
                "failed to spawn custom module listener process: ",
                m.as_str(),
            ),
            CustomCommandError::MissingStdout => "custom module listener did not expose stdout".to_owned(),
            CustomCommandError::Read(m) => concat2(
                "failed to read line from custom module output: ",
                m.as_str(),
            ),
            CustomCommandError::Parse { snippet, error } => {
                let mut s = concat3(
                    "failed to parse custom module output: ",
                    snippet.as_str(),
                    " (",
                );
                s.append(error.as_str());
                s.append(")");
                s
            },
            CustomCommandError::Wait(m) => concat2(
                "failed to wait for custom module process: ",
                m.as_str(),
            ),
            CustomCommandError::NonZeroExit { status } => {
                let status_text = match status {
                    Some(code) => {
                        let digits = i64_to_decimal(*code as i64);
                        concat3("Some(", digits.as_str(), ")")
                    },
                    None => "None".to_owned(),
                };
                concat3(
                    "custom module process exited unsuccessfully (",
                    status_text.as_str(),
                    ")",
                )
            },
            CustomCommandError::ChannelClosed => "custom module updates channel closed".to_owned(),
        }
    }
}

/// The UTF-8 width of a character.
pub open spec fn char_width(c: char) -> nat {
    encode_scalar(c as u32).len()
}

/// The byte offset at which the `i`-th character of `s` starts in UTF-8.
pub open spec fn byte_offset(s: Seq<char>, i: int) -> nat {
    encode_utf8(s.take(i)).len()
}

/// Whether the first `k` characters of `s` are those that start before byte
/// `SNIPPET_MAX_BYTES`.
pub open spec fn snippet_cut(s: Seq<char>, k: int) -> bool {
    &&& 0 <= k <= s.len()
    &&& forall|j: int| 0 <= j < k ==> byte_offset(s, j) < SNIPPET_MAX_BYTES
    &&& k < s.len() ==> byte_offset(s, k) >= SNIPPET_MAX_BYTES
}

proof fn lemma_encode_utf8_append(a: Seq<char>, b: Seq<char>)
    ensures
        encode_utf8(a + b) == encode_utf8(a) + encode_utf8(b),
    decreases a.len(),
{
    if a.len() == 0 {
        assert(a + b =~= b);
        assert(encode_utf8(a) =~= Seq::<u8>::empty());
        assert(encode_utf8(a) + encode_utf8(b) =~= encode_utf8(b));
    } else {
        lemma_encode_utf8_append(a.drop_first(), b);
        assert((a + b).drop_first() =~= a.drop_first() + b);
        assert((a + b)[0] == a[0]);
        assert(encode_utf8(a + b) =~= encode_scalar(a[0] as u32) + encode_utf8(a.drop_first() + b));
        assert(encode_utf8(a) =~= encode_scalar(a[0] as u32) + encode_utf8(a.drop_first()));
    }
}

proof fn lemma_byte_offset_step(s: Seq<char>, i: int)
    requires
        0 <= i < s.len(),
    ensures
        byte_offset(s, i + 1) == byte_offset(s, i) + char_width(s[i]),
{
    assert(s.take(i + 1) =~= s.take(i) + seq![s[i]]);
    lemma_encode_utf8_append(s.take(i), seq![s[i]]);
    let one = seq![s[i]];
    assert(one.drop_first() =~= Seq::<char>::empty());
    assert(encode_utf8(one) =~= encode_scalar(s[i] as u32) + encode_utf8(Seq::<char>::empty()));
    assert(encode_utf8(Seq::<char>::empty()) =~= Seq::<u8>::empty());
}

/// The UTF-8 width of a character.
fn utf8_width(c: char) -> (w: usize)
    ensures
        w == char_width(c),
        1 <= w <= 4,
{
    let v = c as u32;
    proof {
        vstd::utf8::char_is_scalar(c);
    }
    if v <= 0x7F {
        1
    } else if v <= 0x7FF {
        2
    } else if v <= 0xFFFF {
        3
    } else {
        4
    }
}

/// A listener line shortened for an error message: the characters that
/// start before byte `SNIPPET_MAX_BYTES`, followed by `…` when characters
/// were left out.
pub fn truncate_snippet(line: &str) -> (r: String)
    ensures
        exists|k: int|
            snippet_cut(line@, k) && r@ == line@.take(k) + (if k < line@.len() {
                "…"@
            } else {
                Seq::<char>::empty()
            }),
{
    let n = line.unicode_len();
    let mut i: usize = 0;
    let mut off: usize = 0;
    while i < n && off < SNIPPET_MAX_BYTES
        invariant
            n == line@.len(),
            i <= n,
            off == byte_offset(line@, i as int),
            off < SNIPPET_MAX_BYTES + 4,
            forall|j: int| 0 <= j < i ==> byte_offset(line@, j) < SNIPPET_MAX_BYTES,
        decreases n - i,
    {
        let w = utf8_width(line.get_char(i));
        proof {
            lemma_byte_offset_step(line@, i as int);
        }
        off = off + w;
        i = i + 1;
    }
    let head = line.substring_char(0, i);
    assert(snippet_cut(line@, i as int));
    if i < n {
        concat2(head, "…")
    } else {
        proof {
            assert(line@.take(i as int) + Seq::<char>::empty() =~= line@.take(i as int));
        }
        head.to_owned()
    }
}

/// What a listener line becomes: an update when it parsed, otherwise a parse
/// error quoting the line's start and the parser's message.
pub fn line_event(line: &str, parsed: Result<CustomListenData, String>) -> (e: ServiceEvent<
    CustomCommandService,
>)
    ensures
        parsed matches Ok(d) ==> e == ServiceEvent::<CustomCommandService>::Update(d),
        parsed matches Err(msg) ==> e matches ServiceEvent::Error(
            CustomCommandError::Parse { snippet, error },
        ) && error == msg && exists|k: int|
            snippet_cut(line@, k) && snippet@ == line@.take(k) + (if k < line@.len() {
                "…"@
            } else {
                Seq::<char>::empty()
            }),
{
    match parsed {
        Ok(data) => ServiceEvent::Update(data),
        Err(msg) => ServiceEvent::Error(
            CustomCommandError::Parse { snippet: truncate_snippet(line), error: msg },
        ),
    }
}

/// What the end of a listener process means: success for a zero exit
/// status, otherwise the exit code (`None` when a signal ended it).
pub fn listener_exit(success: bool, code: Option<i32>) -> (r: Result<(), CustomCommandError>)
    ensures
        success ==> r is Ok,
        !success ==> r == Err::<(), CustomCommandError>(
            CustomCommandError::NonZeroExit { status: code },
        ),
{
    if success {
        Ok(())
    } else {
        Err(CustomCommandError::NonZeroExit { status: code })
    }
}

/// Messages of a custom module.
#[derive(Debug)]
pub enum Message {
    Event(ServiceEvent<CustomCommandService>),
}

/// The state of a custom module: the latest line and the latest error.
#[derive(Debug, Clone)]
pub struct Custom {
    pub data: CustomListenData,
    pub last_error: Option<CustomCommandError>,
}

impl Default for Custom {
    fn default() -> (c: Self)
        ensures
            c.data.alt@ == Seq::<char>::empty(),
            c.data.text is None,
            c.last_error is None,
    {
        Custom { data: CustomListenData::default(), last_error: None }
    }
}

/// The icon a custom module shows.
#[derive(Debug, Clone)]
pub enum IconChoice {
    /// An icon of the icon font.
    Named(Icons),
    /// Text used as the icon.
    Text(String),
}

/// What a custom module shows.
#[derive(Debug, Clone)]
pub struct CustomDisplay {
    pub icon: IconChoice,
    /// Whether the alert dot is shown.
    pub alert: bool,
    /// Text beside the icon.
    pub text: Option<String>,
}

/// Whether `i` is the first icon pattern that matches `alt`.
pub open spec fn is_first_icon_match(icons: Seq<(RegexCfg, String)>, alt: Seq<char>, i: int) -> bool {
    &&& 0 <= i < icons.len()
    &&& regex_matches(icons[i].0@, alt)
    &&& forall|j: int| 0 <= j < i ==> !regex_matches((#[trigger] icons[j]).0@, alt)
}

/// The icon: the one of the first pattern that matches `alt`, else the
/// configured icon, else none.
pub open spec fn icon_matches(config: CustomModuleDef, alt: Seq<char>, icon: IconChoice) -> bool {
    let matched = match config.icons {
        Some(icons) => exists|i: int| is_first_icon_match(icons@, alt, i),
        None => false,
    };
    if matched {
        exists|i: int|
            is_first_icon_match(config.icons->0@, alt, i) && icon == IconChoice::Text(
                config.icons->0@[i].1,
            )
    } else {
        match config.icon {
            Some(t) => icon == IconChoice::Text(t),
            None => icon == IconChoice::Named(Icons::Blank),
        }
    }
}

/// Whether the alert dot is shown: the alert pattern matches `alt`, or the
/// listener failed.
pub open spec fn alert_shown(config: CustomModuleDef, state: Custom) -> bool {
    (config.alert matches Some(re) && regex_matches(re@, state.data.alt@)) || state.last_error is Some
}

/// Whether `text` is what is shown beside the icon: the error's message
/// after a failure, else the line's text when not empty.
pub open spec fn text_matches(state: Custom, text: Option<String>) -> bool {
    match state.last_error {
        Some(e) => text matches Some(t) && t@ == display_message(e),
        None => match state.data.text {
            Some(t) => if t@.len() > 0 {
                text == Some(t)
            } else {
                text is None
            },
            None => text is None,
        },
    }
}

/// The position of the first icon pattern that matches `alt`.
fn first_icon_match(icons: &Vec<(RegexCfg, String)>, alt: &str) -> (r: Option<usize>)
    ensures
        r matches Some(i) ==> is_first_icon_match(icons@, alt@, i as int),
        r is None ==> !exists|k: int| is_first_icon_match(icons@, alt@, k),
{
    let mut i: usize = 0;
    while i < icons.len()
        invariant
            i <= icons@.len(),
            forall|j: int| 0 <= j < i ==> !regex_matches((#[trigger] icons@[j]).0@, alt@),
        decreases icons@.len() - i,
    {
        if icons[i].0.is_match(alt) {
            return Some(i);
        }
        i = i + 1;
    }
    proof {
        if exists|k: int| is_first_icon_match(icons@, alt@, k) {
            let k = choose|k: int| is_first_icon_match(icons@, alt@, k);
            assert(!regex_matches(icons@[k].0@, alt@));
        }
    }
    None
}

impl Custom {
    /// Applies a service event: an update replaces the line and clears the
    /// error, an error is kept until the next update.
    pub fn update(&mut self, msg: Message)
        ensures
            match msg {
                Message::Event(ServiceEvent::Update(data)) => final(self).data == data
                    && final(self).last_error is None,
                Message::Event(ServiceEvent::Error(error)) => final(self).data == old(self).data
                    && final(self).last_error == Some(error),
                Message::Event(ServiceEvent::Init(_)) => *final(self) == *old(self),
            },
    {
        match msg {
            Message::Event(ServiceEvent::Update(data)) => {
                self.data = data;
                self.last_error = None;
            },
            Message::Event(ServiceEvent::Error(error)) => {
                self.last_error = Some(error);
            },
            Message::Event(ServiceEvent::Init(_)) => {},
        }
    }

    /// What the module shows for `config`.
    pub fn display(&self, config: &CustomModuleDef) -> (d: CustomDisplay)
        ensures
            icon_matches(*config, self.data.alt@, d.icon),
            d.alert == alert_shown(*config, *self),
            text_matches(*self, d.text),
    {
        let alt = self.data.alt.as_str();
        let found = match &config.icons {
            Some(icons) => match first_icon_match(icons, alt) {
                Some(i) => Some(IconChoice::Text(icons[i].1.clone())),
                None => None,
            },
            None => None,
        };
        let icon = match found {
            Some(found) => found,
            None => match &config.icon {
                Some(t) => IconChoice::Text(t.clone()),
                None => IconChoice::Named(Icons::Blank),
            },
        };
        let mut alert = false;
        match &config.alert {
            Some(re) => {
                if re.is_match(alt) {
                    alert = true;
                }
            },
            None => {},
        }
        if self.last_error.is_some() {
            alert = true;
        }
        let text = match &self.last_error {
            Some(error) => Some(error.to_display_message()),
            None => match &self.data.text {
                Some(t) => {
                    if t.as_str().unicode_len() > 0 {
                        Some(t.clone())
                    } else {
                        None
                    }
                },
                None => None,
            },
        };
        CustomDisplay { icon, alert, text }
    }
}

} // verus!
