//! The configuration form: two text fields, port validation, and the
//! connectivity probe that must succeed before the form completes.

use vstd::prelude::*;
use crate::mqtt::MQTTConfig;
use crate::screen::Key;

verus! {

/// Relies on std's `String::push`: appends one character.
pub assume_specification[ String::push ](s: &mut String, ch: char)
    ensures
        final(s)@ == old(s)@.push(ch),
;

/// Relies on std's `String::pop`: removes and returns the last character,
/// or returns `None` on an empty string.
pub assume_specification[ String::pop ](s: &mut String) -> (r: Option<char>)
    ensures
        old(s)@.len() == 0 ==> r is None && final(s)@ == old(s)@,
        old(s)@.len() > 0 ==> r == Some(old(s)@.last()) && final(s)@ == old(s)@.drop_last(),
;

/// The fields of the configuration form.
#[derive(Debug, Clone, Copy, PartialEq, Eq, Structural)]
pub enum FocusField {
    Host,
    Port,
}

/// The form's editable state.
pub struct ConfigFormState {
    pub host: String,
    pub port: String,
    pub focus: FocusField,
    pub error: Option<String>,
    /// True while a connectivity probe is outstanding.
    pub connecting: bool,
    /// Phase of the animated ellipsis, 0 to 3.
    pub spinner_idx: usize,
}

/// The other field: with two fields, forward and backward agree.
pub open spec fn other_field(f: FocusField) -> FocusField {
    match f {
        FocusField::Host => FocusField::Port,
        FocusField::Port => FocusField::Host,
    }
}

impl ConfigFormState {
    /// Both fields empty, the host focused, no error, not connecting.
    pub fn new() -> (r: Self)
        ensures
            r.host@.len() == 0,
            r.port@.len() == 0,
            r.focus == FocusField::Host,
            r.error is None,
            !r.connecting,
            r.spinner_idx == 0,
    {
        Self {
            host: String::new(),
            port: String::new(),
            focus: FocusField::Host,
            error: None,
            connecting: false,
            spinner_idx: 0,
        }
    }

    /// Move focus to the next field.
    pub fn next_field(&mut self)
        ensures
            final(self).focus == other_field(old(self).focus),
            final(self).host == old(self).host,
            final(self).port == old(self).port,
            final(self).error == old(self).error,
            final(self).connecting == old(self).connecting,
            final(self).spinner_idx == old(self).spinner_idx,
    {
        self.focus = match self.focus {
            FocusField::Host => FocusField::Port,
            FocusField::Port => FocusField::Host,
        };
    }

    /// Move focus to the previous field.
    pub fn prev_field(&mut self)
        ensures
            final(self).focus == other_field(old(self).focus),
            final(self).host == old(self).host,
            final(self).port == old(self).port,
            final(self).error == old(self).error,
            final(self).connecting == old(self).connecting,
            final(self).spinner_idx == old(self).spinner_idx,
    {
        self.focus = match self.focus {
            FocusField::Host => FocusField::Port,
            FocusField::Port => FocusField::Host,
        };
    }

    /// Append `c` to the focused field.
    pub fn insert_char(&mut self, c: char)
        ensures
            old(self).focus == FocusField::Host ==> final(self).host@ == old(self).host@.push(c)
                && final(self).port == old(self).port,
            old(self).focus == FocusField::Port ==> final(self).port@ == old(self).port@.push(c)
                && final(self).host == old(self).host,
            final(self).focus == old(self).focus,
            final(self).error == old(self).error,
            final(self).connecting == old(self).connecting,
            final(self).spinner_idx == old(self).spinner_idx,
    {
        match self.focus {
            FocusField::Host => self.host.push(c),
            FocusField::Port => self.port.push(c),
        }
    }

    /// Remove the last character of the focused field, if it has one.
    pub fn delete_char(&mut self)
        ensures
            old(self).focus == FocusField::Host ==> final(self).host@ == drop_last_char(
                old(self).host@,
            ) && final(self).port == old(self).port,
            old(self).focus == FocusField::Port ==> final(self).port@ == drop_last_char(
                old(self).port@,
            ) && final(self).host == old(self).host,
            final(self).focus == old(self).focus,
            final(self).error == old(self).error,
            final(self).connecting == old(self).connecting,
            final(self).spinner_idx == old(self).spinner_idx,
    {
        match self.focus {
            FocusField::Host => {
                self.host.pop();
            },
            FocusField::Port => {
                self.port.pop();
            },
        }
    }
}

/// `s` without its last character; empty stays empty.
pub open spec fn drop_last_char(s: Seq<char>) -> Seq<char> {
    if s.len() == 0 {
        s
    } else {
        s.drop_last()
    }
}

pub open spec fn is_digit(c: char) -> bool {
    '0' <= c <= '9'
}

pub open spec fn digit_value(c: char) -> int {
    c as int - '0' as int
}

/// The number that a string of decimal digits spells.
pub open spec fn digits_value(d: Seq<char>) -> int
    decreases d.len(),
{
    if d.len() == 0 {
        0
    } else {
        digits_value(d.drop_last()) * 10 + digit_value(d.last())
    }
}

/// The digits of a port string: all of it, or what follows a leading `+`.
pub open spec fn port_digits(s: Seq<char>) -> Seq<char> {
    if s.len() > 0 && s[0] == '+' {
        s.drop_first()
    } else {
        s
    }
}

/// `s` reads as a 16-bit unsigned integer: an optional `+`, then one or
/// more decimal digits and nothing else, with a value of at most 65535.
pub open spec fn parses_as_port(s: Seq<char>) -> bool {
    let d = port_digits(s);
    &&& d.len() > 0
    &&& forall|i: int| 0 <= i < d.len() ==> is_digit(#[trigger] d[i])
    &&& digits_value(d) <= 65535
}

/// Read a port number: `Some` exactly when `s` is an optional `+` followed
/// by decimal digits whose value fits in 16 bits.
pub fn parse_port(s: &str) -> (r: Option<u16>)
    ensures
        r == (if parses_as_port(s@) {
            Some(digits_value(port_digits(s@)) as u16)
        } else {
            None::<u16>
        }),
{
    let n = s.unicode_len();
    let ghost d = port_digits(s@);
    let mut start: usize = 0;
    if n > 0 && s.get_char(0) == '+' {
        start = 1;
    }
    assert(d =~= s@.subrange(start as int, n as int));
    if start == n {
        assert(d.len() == 0);
        return None;
    }
    let mut value: u32 = 0;
    let mut over = false;
    let mut i: usize = start;
    while i < n
        invariant
            n == s@.len(),
            start <= i <= n,
            d =~= s@.subrange(start as int, n as int),
            d == port_digits(s@),
            forall|j: int| 0 <= j < i - start ==> is_digit(#[trigger] d[j]),
            digits_value(d.subrange(0, i - start)) >= 0,
            !over ==> value == digits_value(d.subrange(0, i - start)) && value <= 65535,
            over ==> digits_value(d.subrange(0, i - start)) > 65535,
        decreases n - i,
    {
        let c = s.get_char(i);
        if c < '0' || c > '9' {
            assert(!is_digit(d[i - start]));
            return None;
        }
        let ghost k = i - start;
        assert(d.subrange(0, k + 1).drop_last() =~= d.subrange(0, k));
        let v = (c as u32) - ('0' as u32);
        if !over {
            value = value * 10 + v;
            if value > 65535 {
                over = true;
            }
        }
        i += 1;
    }
    assert(d.subrange(0, d.len() as int) =~= d);
    if over {
        None
    } else {
        Some(value as u16)
    }
}

/// How long a probe may take to reach the broker, in seconds.
pub const PROBE_TIMEOUT_SECS: u64 = 5;

/// How often the connecting indicator may advance, in milliseconds.
pub const SPINNER_PERIOD_MS: u64 = 300;

/// What the form asks of the loop that runs it.
pub enum FormAction {
    /// Nothing beyond redrawing.
    Continue,
    /// Start a connectivity probe against this broker.
    StartProbe(MQTTConfig),
    /// The user gave up on the form.
    Cancel,
}

/// What polling the outstanding probe gave.
pub enum ProbePoll {
    /// No answer yet.
    Pending,
    /// The broker answered.
    Succeeded,
    /// The broker could not be reached, for this reason.
    Failed(String),
    /// The probe went away without an answer.
    Lost,
}

/// The line under the form.
#[derive(Debug, PartialEq)]
pub enum StatusLine {
    /// A probe is running: "Connecting" and the indicator's dots.
    Progress(String),
    /// The last error.
    Error(String),
}

/// The configuration form: its fields, the probe in flight, and the
/// configuration it produced once a probe succeeded.
pub struct ConfigForm {
    pub state: ConfigFormState,
    pub probing: Option<MQTTConfig>,
    pub result: Option<MQTTConfig>,
}

pub struct FormView {
    pub host: Seq<char>,
    pub port: Seq<char>,
    pub focus: FocusField,
    pub error: Option<Seq<char>>,
    pub connecting: bool,
    pub spinner_idx: nat,
    pub probing: Option<(Seq<char>, u16)>,
    pub result: Option<(Seq<char>, u16)>,
}

pub enum FormActionView {
    Continue,
    StartProbe(Seq<char>, u16),
    Cancel,
}

pub enum ProbePollView {
    Pending,
    Succeeded,
    Failed(Seq<char>),
    Lost,
}

pub enum StatusView {
    Progress(Seq<char>),
    Error(Seq<char>),
}

pub open spec fn config_view(c: Option<MQTTConfig>) -> Option<(Seq<char>, u16)> {
    match c {
        Some(c) => Some((c.host@, c.port)),
        None => None,
    }
}

pub open spec fn text_view(e: Option<String>) -> Option<Seq<char>> {
    match e {
        Some(e) => Some(e@),
        None => None,
    }
}

impl View for ConfigForm {
    type V = FormView;

    open spec fn view(&self) -> FormView {
        FormView {
            host: self.state.host@,
            port: self.state.port@,
            focus: self.state.focus,
            error: text_view(self.state.error),
            connecting: self.state.connecting,
            spinner_idx: self.state.spinner_idx as nat,
            probing: config_view(self.probing),
            result: config_view(self.result),
        }
    }
}

impl View for FormAction {
    type V = FormActionView;

    open spec fn view(&self) -> FormActionView {
        match self {
            FormAction::Continue => FormActionView::Continue,
            FormAction::StartProbe(c) => FormActionView::StartProbe(c.host@, c.port),
            FormAction::Cancel => FormActionView::Cancel,
        }
    }
}

impl View for ProbePoll {
    type V = ProbePollView;

    open spec fn view(&self) -> ProbePollView {
        match self {
            ProbePoll::Pending => ProbePollView::Pending,
            ProbePoll::Succeeded => ProbePollView::Succeeded,
            ProbePoll::Failed(reason) => ProbePollView::Failed(reason@),
            ProbePoll::Lost => ProbePollView::Lost,
        }
    }
}

impl View for StatusLine {
    type V = StatusView;

    open spec fn view(&self) -> StatusView {
        match self {
            StatusLine::Progress(t) => StatusView::Progress(t@),
            StatusLine::Error(t) => StatusView::Error(t@),
        }
    }
}

pub open spec fn port_error_text() -> Seq<char> {
    "Port must be a valid number"@
}

pub open spec fn unreachable_text(host: Seq<char>) -> Seq<char> {
    "Host unreachable: "@ + host
}

pub open spec fn lost_probe_text() -> Seq<char> {
    "Connection check failed (disconnected)"@
}

/// Enter: ignored while a probe runs; otherwise a valid port starts a
/// probe of the entered host and port, and an invalid one sets the error.
pub open spec fn enter_step(f: FormView) -> (FormView, FormActionView) {
    if f.connecting {
        (f, FormActionView::Continue)
    } else if parses_as_port(f.port) {
        let p = digits_value(port_digits(f.port)) as u16;
        (
            FormView {
                error: None,
                connecting: true,
                spinner_idx: 0,
                probing: Some((f.host, p)),
                ..f
            },
            FormActionView::StartProbe(f.host, p),
        )
    } else {
        (FormView { error: Some(port_error_text()), ..f }, FormActionView::Continue)
    }
}

/// The form after a key press, and what it asks of the loop. While a probe
/// runs the fields are frozen: only Escape is heeded.
pub open spec fn key_step(f: FormView, key: Key) -> (FormView, FormActionView) {
    if f.connecting {
        match key {
            Key::Esc => (f, FormActionView::Cancel),
            _ => (f, FormActionView::Continue),
        }
    } else {
        editing_key_step(f, key)
    }
}

/// The probe's target is what the fields held when it started: the host
/// text and the port that the port text reads as.
pub open spec fn probe_target_matches(host: Seq<char>, port: u16, f: FormView) -> bool {
    &&& host == f.host
    &&& parses_as_port(f.port)
    &&& port == digits_value(port_digits(f.port)) as u16
}

/// A key press on the form while no probe runs.
pub open spec fn editing_key_step(f: FormView, key: Key) -> (FormView, FormActionView) {
    match key {
        Key::Tab | Key::Down | Key::BackTab | Key::Up => (
            FormView { focus: other_field(f.focus), ..f },
            FormActionView::Continue,
        ),
        Key::Char(c) => (
            if f.focus == FocusField::Host {
                FormView { host: f.host.push(c), ..f }
            } else {
                FormView { port: f.port.push(c), ..f }
            },
            FormActionView::Continue,
        ),
        Key::Backspace => (
            if f.focus == FocusField::Host {
                FormView { host: drop_last_char(f.host), ..f }
            } else {
                FormView { port: drop_last_char(f.port), ..f }
            },
            FormActionView::Continue,
        ),
        Key::Enter => enter_step(f),
        Key::Esc => (f, FormActionView::Cancel),
        Key::Other => (f, FormActionView::Continue),
    }
}

/// The form after polling the probe: success completes it with the probed
/// configuration; failure or loss returns it to editing with an error.
pub open spec fn probe_step(f: FormView, poll: ProbePollView) -> FormView {
    match f.probing {
        None => f,
        Some(target) => match poll {
            ProbePollView::Pending => f,
            ProbePollView::Succeeded => FormView {
                connecting: false,
                probing: None,
                result: Some(target),
                ..f
            },
            ProbePollView::Failed(_) => FormView {
                error: Some(unreachable_text(f.host)),
                connecting: false,
                spinner_idx: 0,
                probing: None,
                ..f
            },
            ProbePollView::Lost => FormView {
                error: Some(lost_probe_text()),
                connecting: false,
                spinner_idx: 0,
                probing: None,
                ..f
            },
        },
    }
}

/// The indicator advances one phase of four while a probe runs, once at
/// least a period has passed since it last moved.
pub open spec fn spinner_step(f: FormView, elapsed_ms: u64) -> FormView {
    if f.connecting && elapsed_ms >= SPINNER_PERIOD_MS {
        FormView { spinner_idx: (f.spinner_idx + 1) % 4, ..f }
    } else {
        f
    }
}

/// `n` dots.
pub open spec fn dots(n: nat) -> Seq<char> {
    Seq::new(n, |i: int| '.')
}

/// The line under the form: progress while a probe runs, else the error.
pub open spec fn status_of(f: FormView) -> Option<StatusView> {
    if f.connecting {
        Some(StatusView::Progress("Connecting"@ + dots(f.spinner_idx)))
    } else {
        match f.error {
            Some(e) => Some(StatusView::Error(e)),
            None => None,
        }
    }
}

impl ConfigForm {
    /// A probe is outstanding exactly while the form says it is connecting,
    /// and the indicator is in one of its four phases.
    pub open spec fn wf(&self) -> bool {
        &&& self.state.connecting == self.probing is Some
        &&& self.state.spinner_idx < 4
        &&& self.probing matches Some(c) ==> probe_target_matches(c.host@, c.port, self@)
    }

    /// Whether the form's invariant holds.
    pub fn is_well_formed(&self) -> (r: bool)
        ensures
            r == self.wf(),
    {
        if self.state.connecting != self.probing.is_some() || self.state.spinner_idx >= 4 {
            return false;
        }
        match &self.probing {
            Some(c) => c.host == self.state.host && match parse_port(self.state.port.as_str()) {
                Some(p) => p == c.port,
                None => false,
            },
            None => true,
        }
    }

    /// A fresh form.
    pub fn new() -> (r: Self)
        ensures
            r.wf(),
            r@.host.len() == 0,
            r@.port.len() == 0,
            r@.focus == FocusField::Host,
            r@.error is None,
            !r@.connecting,
            r@.spinner_idx == 0,
            r@.probing is None,
            r@.result is None,
    {
        ConfigForm { state: ConfigFormState::new(), probing: None, result: None }
    }

    fn on_enter_pressed(&mut self) -> (r: FormAction)
        requires
            old(self).wf(),
        ensures
            final(self).wf(),
            (final(self)@, r@) == enter_step(old(self)@),
    {
        if self.state.connecting {
            return FormAction::Continue;
        }
        match parse_port(self.state.port.as_str()) {
            Some(port) => {
                self.state.error = None;
                self.state.connecting = true;
                self.state.spinner_idx = 0;
                self.probing = Some(MQTTConfig { host: self.state.host.clone(), port });
                FormAction::StartProbe(MQTTConfig { host: self.state.host.clone(), port })
            },
            None => {
                self.state.error = Some(String::from_str("Port must be a valid number"));
                FormAction::Continue
            },
        }
    }

    /// Apply one key press.
    pub fn handle_key(&mut self, key: Key) -> (r: FormAction)
        requires
            old(self).wf(),
        ensures
            final(self).wf(),
            (final(self)@, r@) == key_step(old(self)@, key),
    {
        if self.state.connecting {
            return match key {
                Key::Esc => FormAction::Cancel,
                _ => FormAction::Continue,
            };
        }
        match key {
            Key::Tab | Key::Down => {
                self.state.next_field();
                FormAction::Continue
            },
            Key::BackTab | Key::Up => {
                self.state.prev_field();
                FormAction::Continue
            },
            Key::Char(c) => {
                self.state.insert_char(c);
                FormAction::Continue
            },
            Key::Backspace => {
                self.state.delete_char();
                FormAction::Continue
            },
            Key::Enter => self.on_enter_pressed(),
            Key::Esc => FormAction::Cancel,
            Key::Other => FormAction::Continue,
        }
    }

    /// Take in what polling the outstanding probe gave.
    pub fn process_probe(&mut self, poll: ProbePoll)
        requires
            old(self).wf(),
        ensures
            final(self).wf(),
            final(self)@ == probe_step(old(self)@, poll@),
    {
        if self.probing.is_none() {
            return;
        }
        match poll {
            ProbePoll::Pending => {},
            ProbePoll::Succeeded => {
                self.state.connecting = false;
                self.result = self.probing.take();
            },
            ProbePoll::Failed(_) => {
                self.probing = None;
                let mut text = String::from_str("Host unreachable: ");
                text.append(self.state.host.as_str());
                self.state.error = Some(text);
                self.state.connecting = false;
                self.state.spinner_idx = 0;
            },
            ProbePoll::Lost => {
                self.probing = None;
                self.state.error = Some(String::from_str("Connection check failed (disconnected)"));
                self.state.connecting = false;
                self.state.spinner_idx = 0;
            },
        }
    }

    /// Advance the connecting indicator if a probe runs and `elapsed_ms`
    /// since it last moved reach the period; returns whether it moved.
    pub fn update_spinner(&mut self, elapsed_ms: u64) -> (moved: bool)
        requires
            old(self).wf(),
        ensures
            final(self).wf(),
            final(self)@ == spinner_step(old(self)@, elapsed_ms),
            moved == (old(self)@.connecting && elapsed_ms >= SPINNER_PERIOD_MS),
    {
        if self.state.connecting && elapsed_ms >= SPINNER_PERIOD_MS {
            self.state.spinner_idx = (self.state.spinner_idx + 1) % 4;
            true
        } else {
            false
        }
    }

    /// The line to show under the form, if any.
    pub fn status_line(&self) -> (r: Option<StatusLine>)
        ensures
            match r {
                Some(l) => status_of(self@) == Some(l@),
                None => status_of(self@) is None,
            },
    {
        if self.state.connecting {
            let mut text = String::from_str("Connecting");
            let ghost base = text@;
            let mut i: usize = 0;
            while i < self.state.spinner_idx
                invariant
                    i <= self.state.spinner_idx,
                    text@ == base + dots(i as nat),
                decreases self.state.spinner_idx - i,
            {
                text.push('.');
                i += 1;
                assert(text@ =~= base + dots(i as nat));
            }
            Some(StatusLine::Progress(text))
        } else {
            match &self.state.error {
                Some(e) => Some(StatusLine::Error(e.clone())),
                None => None,
            }
        }
    }

    /// The configuration that the form produced, once a probe succeeded.
    pub fn into_config(self) -> (r: Option<MQTTConfig>)
        ensures
            config_view(r) == self@.result,
    {
        self.result
    }
}

} // verus!
