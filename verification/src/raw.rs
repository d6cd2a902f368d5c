//! The keystroke collector: lines assembled key by key, ended by the chord.

use vstd::prelude::*;
use vstd::string::*;
use crate::keys::{classify, is_chord, is_enter, keystroke_of, printable_char, Event, Keystroke};
use crate::line::texts;
use crate::terminal::Terminal;

verus! {

/// `String::push` of std: the character is added at the end of the string, and
/// nothing else of it changes.
pub assume_specification[ String::push ](s: &mut String, ch: char)
    ensures
        final(s)@ == old(s)@.push(ch),
;

/// Where the reading of one line stands.
#[derive(Clone, Copy, Debug, PartialEq, Eq)]
pub enum ReadState {
    /// No key was taken yet, or the last one was ignored.
    AwaitingKey,
    /// The last key added a character to the line.
    LineInProgress,
    /// Enter was pressed: the line is a phrase.
    Done,
    /// The chord was pressed: the session is over and the line is dropped.
    Terminated,
    /// The stream of keys ended: there is no phrase.
    DoneNoPhrase,
    /// The stream could not be read.
    Failed,
}

/// What the caller is to do after handing over an event.
#[derive(Clone, Copy, Debug, PartialEq, Eq)]
pub enum Action {
    /// Print the character and flush: in raw mode the terminal does not echo.
    Echo(char),
    /// Move to the start of the next line.
    EndLine,
    /// Tell the user that the chord was seen.
    AnnounceTermination,
    /// Tell the user that no input came.
    AnnounceNoInput,
    /// Report that the stream could not be read.
    ReportFault,
    /// Nothing to do.
    Nothing,
}

/// Why a read gave no signal.
#[derive(Clone, Copy, Debug, PartialEq, Eq)]
pub enum ReadError {
    /// The stream of events could not be read.
    InputFault,
    /// Raw mode was held already when the read began.
    AlreadyRaw,
}

/// How the read of one line ended, as text.
pub enum LineEnd {
    /// A phrase was entered.
    Phrase(Seq<char>),
    /// The chord was pressed.
    Terminated,
    /// The stream of keys ended.
    EndOfInput,
}

/// How the read of one line ended.
#[derive(Debug, PartialEq, Eq)]
pub enum Signal {
    /// A phrase was entered: collect it and read on.
    Phrase(String),
    /// The chord was pressed: stop collecting.
    Terminated,
    /// The stream of keys ended: stop collecting.
    EndOfInput,
}

impl View for Signal {
    type V = LineEnd;

    open spec fn view(&self) -> LineEnd {
        match self {
            Signal::Phrase(p) => LineEnd::Phrase(p@),
            Signal::Terminated => LineEnd::Terminated,
            Signal::EndOfInput => LineEnd::EndOfInput,
        }
    }
}

/// The reader of one line as a value: its state and the characters entered so
/// far.
pub struct Machine {
    pub state: ReadState,
    pub buffer: Seq<char>,
}

/// A state that no event leads out of.
pub open spec fn is_terminal(s: ReadState) -> bool {
    !(s is AwaitingKey || s is LineInProgress)
}

/// The reader before any key.
pub open spec fn initial() -> Machine {
    Machine { state: ReadState::AwaitingKey, buffer: Seq::empty() }
}

/// The transition function: the reader after `event`. A printable key adds its
/// character; Enter, the chord, a stream that ended and a fault each end the
/// read; any other key changes nothing but the state. A reader that has ended
/// stays as it is.
pub open spec fn advance(m: Machine, event: Event) -> Machine {
    if is_terminal(m.state) {
        m
    } else {
        match event {
            Event::Key(key) => match keystroke_of(key) {
                Keystroke::Printable(c) => Machine {
                    state: ReadState::LineInProgress,
                    buffer: m.buffer.push(c),
                },
                Keystroke::Enter => Machine { state: ReadState::Done, buffer: m.buffer },
                Keystroke::Chord => Machine { state: ReadState::Terminated, buffer: m.buffer },
                Keystroke::Ignored => Machine { state: ReadState::AwaitingKey, buffer: m.buffer },
            },
            Event::NoKey => Machine { state: ReadState::DoneNoPhrase, buffer: m.buffer },
            Event::Fault => Machine { state: ReadState::Failed, buffer: m.buffer },
        }
    }
}

/// What the caller is to do when a reader in state `m` is handed `event`.
pub open spec fn action_for(m: Machine, event: Event) -> Action {
    if is_terminal(m.state) {
        Action::Nothing
    } else {
        match event {
            Event::Key(key) => match keystroke_of(key) {
                Keystroke::Printable(c) => Action::Echo(c),
                Keystroke::Enter => Action::EndLine,
                Keystroke::Chord => Action::AnnounceTermination,
                Keystroke::Ignored => Action::Nothing,
            },
            Event::NoKey => Action::AnnounceNoInput,
            Event::Fault => Action::ReportFault,
        }
    }
}

/// What a read that ended in `m` returns. A reader that was left before its end
/// has had no more keys.
pub open spec fn result_of(m: Machine) -> Result<LineEnd, ReadError> {
    match m.state {
        ReadState::Done => Ok(LineEnd::Phrase(m.buffer)),
        ReadState::Terminated => Ok(LineEnd::Terminated),
        ReadState::Failed => Err(ReadError::InputFault),
        _ => Ok(LineEnd::EndOfInput),
    }
}

/// The reader of one line.
#[derive(Debug)]
pub struct LineReader {
    state: ReadState,
    buffer: String,
}

impl View for LineReader {
    type V = Machine;

    closed spec fn view(&self) -> Machine {
        Machine { state: self.state, buffer: self.buffer@ }
    }
}

impl LineReader {
    /// A reader that has seen no key.
    pub fn new() -> (r: LineReader)
        ensures
            r@ == initial(),
    {
        LineReader { state: ReadState::AwaitingKey, buffer: String::new() }
    }

    /// The state that the reader is in.
    pub fn state(&self) -> (s: ReadState)
        ensures
            s == self@.state,
    {
        self.state
    }

    /// Whether the read has ended.
    pub fn is_finished(&self) -> (b: bool)
        ensures
            b == is_terminal(self@.state),
    {
        match self.state {
            ReadState::AwaitingKey => false,
            ReadState::LineInProgress => false,
            _ => true,
        }
    }

    /// Hands the reader the next event, and says what the caller is to do.
    pub fn step(&mut self, event: &Event) -> (action: Action)
        ensures
            final(self)@ == advance(old(self)@, *event),
            action == action_for(old(self)@, *event),
    {
        if self.is_finished() {
            return Action::Nothing;
        }
        match event {
            Event::Key(key) => match classify(key) {
                Keystroke::Printable(c) => {
                    self.buffer.push(c);
                    self.state = ReadState::LineInProgress;
                    Action::Echo(c)
                },
                Keystroke::Enter => {
                    self.state = ReadState::Done;
                    Action::EndLine
                },
                Keystroke::Chord => {
                    self.state = ReadState::Terminated;
                    Action::AnnounceTermination
                },
                Keystroke::Ignored => {
                    self.state = ReadState::AwaitingKey;
                    Action::Nothing
                },
            },
            Event::NoKey => {
                self.state = ReadState::DoneNoPhrase;
                Action::AnnounceNoInput
            },
            Event::Fault => {
                self.state = ReadState::Failed;
                Action::ReportFault
            },
        }
    }

    /// Ends the read and gives its result: the phrase after Enter, the
    /// termination after the chord, the fault, or the end of input where the
    /// stream ended or the reader was left before its end. A line in progress
    /// is handed out only after Enter.
    pub fn finish(self) -> (r: Result<Signal, ReadError>)
        ensures
            match r {
                Ok(signal) => result_of(self@) == Ok::<LineEnd, ReadError>(signal@),
                Err(e) => result_of(self@) == Err::<LineEnd, ReadError>(e),
            },
    {
        match self.state {
            ReadState::Done => Ok(Signal::Phrase(self.buffer)),
            ReadState::Terminated => Ok(Signal::Terminated),
            ReadState::Failed => Err(ReadError::InputFault),
            _ => Ok(Signal::EndOfInput),
        }
    }
}

/// The reader `m` fed the events from `pos` on, up to the end of its read, and
/// the place of the first event that it did not take. Where the events run out
/// first, the stream has ended.
pub open spec fn run(events: Seq<Event>, pos: int, m: Machine) -> (Machine, int)
    decreases events.len() - pos,
{
    if is_terminal(m.state) {
        (m, pos)
    } else if pos < 0 || pos >= events.len() {
        (advance(m, Event::NoKey), pos)
    } else {
        run(events, pos + 1, advance(m, events[pos]))
    }
}

/// What the caller is told to do, event by event, while the reader `m` is fed
/// the events from `pos` on, up to the end of its read.
pub open spec fn actions(events: Seq<Event>, pos: int, m: Machine) -> Seq<Action>
    decreases events.len() - pos,
{
    if is_terminal(m.state) {
        Seq::empty()
    } else if pos < 0 || pos >= events.len() {
        seq![action_for(m, Event::NoKey)]
    } else {
        seq![action_for(m, events[pos])] + actions(events, pos + 1, advance(m, events[pos]))
    }
}

/// A read ends in a terminal state and takes events only forwards; one that
/// ends with a phrase or with the chord has taken at least one.
pub proof fn lemma_run_bounds(events: Seq<Event>, pos: int, m: Machine)
    ensures
        is_terminal(run(events, pos, m).0.state),
        pos <= run(events, pos, m).1,
        0 <= pos <= events.len() ==> run(events, pos, m).1 <= events.len(),
        !is_terminal(m.state) && (run(events, pos, m).0.state is Done || run(
            events,
            pos,
            m,
        ).0.state is Terminated) ==> pos < run(events, pos, m).1,
    decreases events.len() - pos,
{
    if !is_terminal(m.state) && 0 <= pos < events.len() {
        lemma_run_bounds(events, pos + 1, advance(m, events[pos]));
    }
}

/// What a read of one line that starts at `pos` returns.
pub open spec fn line_result(events: Seq<Event>, pos: int) -> Result<LineEnd, ReadError> {
    result_of(run(events, pos, initial()).0)
}

/// What one read of a line gave, and where the next one starts.
#[derive(Debug)]
pub struct LineRead {
    /// How the read ended.
    pub signal: Signal,
    /// The place of the first event that the read did not take.
    pub next: usize,
    /// What there was to do on the terminal during the read, in order: an echo
    /// for each character, then what its end asks for.
    pub actions: Vec<Action>,
}

/// Reads one line from `events`, starting at `start`.
///
/// Raw mode is taken for the read and given back before it returns, however it
/// ends: with a phrase, with the chord, with the end of the input or with a
/// fault. Where raw mode is held already, nothing is read.
pub fn read_line(term: &mut Terminal, events: &Vec<Event>, start: usize) -> (r: Result<
    LineRead,
    ReadError,
>)
    ensures
        old(term).is_raw() ==> r == Err::<LineRead, ReadError>(ReadError::AlreadyRaw)
            && final(term).is_raw(),
        old(term).is_cooked() ==> final(term).is_cooked() && match r {
            Ok(read) => {
                &&& line_result(events@, start as int) == Ok::<LineEnd, ReadError>(read.signal@)
                &&& read.next == run(events@, start as int, initial()).1
                &&& read.actions@ == actions(events@, start as int, initial())
            },
            Err(e) => line_result(events@, start as int) == Err::<LineEnd, ReadError>(e),
        },
{
    match term.enter_raw() {
        Err(_) => {
            return Err(ReadError::AlreadyRaw);
        },
        Ok(_) => {},
    }
    let mut reader = LineReader::new();
    let mut done: Vec<Action> = Vec::new();
    let mut i: usize = start;
    assert(done@ + actions(events@, start as int, initial()) =~= actions(
        events@,
        start as int,
        initial(),
    ));
    while i < events.len() && !reader.is_finished()
        invariant
            start <= i,
            i <= events.len() || i == start,
            term.is_raw(),
            run(events@, start as int, initial()) == run(events@, i as int, reader@),
            actions(events@, start as int, initial()) == done@ + actions(
                events@,
                i as int,
                reader@,
            ),
        decreases events.len() - i,
    {
        let ghost before = done@;
        let ghost rest = actions(events@, i + 1, advance(reader@, events@[i as int]));
        let action = reader.step(&events[i]);
        done.push(action);
        assert(before + (seq![action] + rest) =~= before.push(action) + rest);
        i += 1;
    }
    if !reader.is_finished() {
        let ghost before = done@;
        let action = reader.step(&Event::NoKey);
        done.push(action);
        assert(before + seq![action] =~= before.push(action));
    } else {
        assert(done@ + Seq::<Action>::empty() =~= done@);
    }
    let result = reader.finish();
    term.restore();
    match result {
        Ok(signal) => Ok(LineRead { signal, next: i, actions: done }),
        Err(e) => Err(e),
    }
}

/// The phrases of a session that reads line after line from `pos` on, added to
/// `acc`: up to the chord or the end of the input, or the fault that ended it.
/// A read that gives a phrase has taken its Enter, so the next one starts
/// further on.
pub open spec fn session(events: Seq<Event>, pos: int, acc: Seq<Seq<char>>) -> Result<
    Seq<Seq<char>>,
    ReadError,
>
    decreases events.len() - pos,
{
    let next = run(events, pos, initial()).1;
    match line_result(events, pos) {
        Ok(LineEnd::Phrase(p)) => if pos < next <= events.len() {
            session(events, next, acc.push(p))
        } else {
            Ok(acc)
        },
        Ok(_) => Ok(acc),
        Err(e) => Err(e),
    }
}

/// Collects phrases from `events` until the chord or the end of the input.
///
/// Each line is read with raw mode held and given back, so the terminal is
/// cooked between the lines and at the end. A fault of the stream ends the
/// session with an error, and so does raw mode held at the start.
pub fn read_phrases(term: &mut Terminal, events: &Vec<Event>) -> (r: Result<Vec<String>, ReadError>)
    ensures
        old(term).is_raw() ==> r == Err::<Vec<String>, ReadError>(ReadError::AlreadyRaw)
            && final(term).is_raw(),
        old(term).is_cooked() ==> final(term).is_cooked() && match r {
            Ok(phrases) => session(events@, 0, Seq::empty()) == Ok::<Seq<Seq<char>>, ReadError>(
                texts(phrases@),
            ),
            Err(e) => session(events@, 0, Seq::empty()) == Err::<Seq<Seq<char>>, ReadError>(e),
        },
{
    let mut phrases: Vec<String> = Vec::new();
    let mut pos: usize = 0;
    assert(texts(phrases@) =~= Seq::<Seq<char>>::empty());
    loop
        invariant
            pos <= events.len(),
            term.mode() == old(term).mode(),
            session(events@, 0, Seq::empty()) == session(events@, pos as int, texts(phrases@)),
        decreases events.len() - pos,
    {
        proof {
            lemma_run_bounds(events@, pos as int, initial());
        }
        match read_line(term, events, pos) {
            Err(e) => {
                return Err(e);
            },
            Ok(read) => match read.signal {
                Signal::Phrase(phrase) => {
                    let ghost before = texts(phrases@);
                    phrases.push(phrase);
                    assert(texts(phrases@) =~= before.push(phrase@));
                    pos = read.next;
                },
                _ => {
                    return Ok(phrases);
                },
            },
        }
    }
}

/// The events from `pos` on type the characters `cs`, one printable key each.
pub open spec fn types(events: Seq<Event>, pos: int, cs: Seq<char>) -> bool {
    &&& 0 <= pos
    &&& pos + cs.len() <= events.len()
    &&& forall|i: int|
        pos <= i < pos + cs.len() ==> printable_char(#[trigger] events[i]) == Some(cs[i - pos])
}

/// A reader that is handed printable keys holds their characters, in order,
/// after what it held before.
pub proof fn lemma_run_typed(events: Seq<Event>, pos: int, m: Machine, cs: Seq<char>)
    requires
        types(events, pos, cs),
        !is_terminal(m.state),
    ensures
        run(events, pos, m) == run(
            events,
            pos + cs.len(),
            Machine {
                state: if cs.len() == 0 {
                    m.state
                } else {
                    ReadState::LineInProgress
                },
                buffer: m.buffer + cs,
            },
        ),
    decreases cs.len(),
{
    if cs.len() == 0 {
        assert(m.buffer + cs =~= m.buffer);
    } else {
        let rest = cs.drop_first();
        assert(printable_char(events[pos]) == Some(cs[0]));
        let m1 = advance(m, events[pos]);
        assert forall|i: int| pos + 1 <= i < pos + 1 + rest.len() implies printable_char(
            #[trigger] events[i],
        ) == Some(rest[i - (pos + 1)]) by {
            assert(rest[i - (pos + 1)] == cs[i - pos]);
        }
        lemma_run_typed(events, pos + 1, m1, rest);
        assert(m.buffer.push(cs[0]) + rest =~= m.buffer + cs);
    }
}

/// Each character typed is echoed, in the order of typing, before anything
/// else is done.
pub proof fn law_typed_characters_are_echoed(events: Seq<Event>, pos: int, m: Machine, cs: Seq<char>)
    requires
        types(events, pos, cs),
        !is_terminal(m.state),
    ensures
        actions(events, pos, m).len() >= cs.len(),
        forall|i: int| 0 <= i < cs.len() ==> #[trigger] actions(events, pos, m)[i] == Action::Echo(cs[i]),
    decreases cs.len(),
{
    if cs.len() > 0 {
        let rest = cs.drop_first();
        assert(printable_char(events[pos]) == Some(cs[0]));
        let m1 = advance(m, events[pos]);
        assert forall|i: int| pos + 1 <= i < pos + 1 + rest.len() implies printable_char(
            #[trigger] events[i],
        ) == Some(rest[i - (pos + 1)]) by {
            assert(rest[i - (pos + 1)] == cs[i - pos]);
        }
        law_typed_characters_are_echoed(events, pos + 1, m1, rest);
        let tail = actions(events, pos + 1, m1);
        assert forall|i: int| 0 <= i < cs.len() implies #[trigger] actions(events, pos, m)[i]
            == Action::Echo(cs[i]) by {
            if i > 0 {
                assert(actions(events, pos, m)[i] == tail[i - 1]);
                assert(rest[i - 1] == cs[i]);
            }
        }
    }
}

/// Characters typed and then Enter give one phrase, which holds exactly those
/// characters, and the next read starts behind the Enter: the session goes on
/// with the phrase collected.
pub proof fn law_enter_yields_typed_line(
    events: Seq<Event>,
    pos: int,
    cs: Seq<char>,
    acc: Seq<Seq<char>>,
)
    requires
        types(events, pos, cs),
        pos + cs.len() < events.len(),
        is_enter(events[pos + cs.len()]),
    ensures
        line_result(events, pos) == Ok::<LineEnd, ReadError>(LineEnd::Phrase(cs)),
        run(events, pos, initial()).1 == pos + cs.len() + 1,
        session(events, pos, acc) == session(events, pos + cs.len() + 1, acc.push(cs)),
{
    lemma_run_typed(events, pos, initial(), cs);
    assert(initial().buffer + cs =~= cs);
    let end = pos + cs.len();
    let m = Machine {
        state: if cs.len() == 0 {
            ReadState::AwaitingKey
        } else {
            ReadState::LineInProgress
        },
        buffer: cs,
    };
    assert(run(events, end, m) == run(events, end + 1, advance(m, events[end])));
}

/// Characters typed and then the chord give no phrase: the read signals the
/// termination, and the session ends at once with the phrases collected before.
pub proof fn law_chord_ends_session(
    events: Seq<Event>,
    pos: int,
    cs: Seq<char>,
    acc: Seq<Seq<char>>,
)
    requires
        types(events, pos, cs),
        pos + cs.len() < events.len(),
        is_chord(events[pos + cs.len()]),
    ensures
        line_result(events, pos) == Ok::<LineEnd, ReadError>(LineEnd::Terminated),
        run(events, pos, initial()).1 == pos + cs.len() + 1,
        session(events, pos, acc) == Ok::<Seq<Seq<char>>, ReadError>(acc),
{
    lemma_run_typed(events, pos, initial(), cs);
    assert(initial().buffer + cs =~= cs);
    let end = pos + cs.len();
    let m = Machine {
        state: if cs.len() == 0 {
            ReadState::AwaitingKey
        } else {
            ReadState::LineInProgress
        },
        buffer: cs,
    };
    assert(run(events, end, m) == run(events, end + 1, advance(m, events[end])));
}

/// A key that is neither printable, nor Enter, nor the chord leaves the line as
/// it was, and the read goes on.
pub proof fn law_other_key_is_ignored(m: Machine, event: Event)
    requires
        !is_terminal(m.state),
        event matches Event::Key(key) && keystroke_of(key) == Keystroke::Ignored,
    ensures
        advance(m, event).buffer == m.buffer,
        advance(m, event).state == ReadState::AwaitingKey,
        action_for(m, event) == Action::Nothing,
{
}

/// Where the events run out before Enter or the chord, the read ends with the
/// end of the input and the session returns what it had.
pub proof fn law_closed_stream_ends_session(events: Seq<Event>, pos: int, acc: Seq<Seq<char>>)
    requires
        pos >= events.len(),
    ensures
        line_result(events, pos) == Ok::<LineEnd, ReadError>(LineEnd::EndOfInput),
        session(events, pos, acc) == Ok::<Seq<Seq<char>>, ReadError>(acc),
{
}

} // verus!
