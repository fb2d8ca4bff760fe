//! The round state machine: it decides what each event does to a session
//! and which outside work (fetching a pair, storing statistics or settings)
//! is to be done next. Whoever runs it performs that work and hands the
//! results back as events.
use crate::geo::{score, score_of, score_span};
use crate::settings::Settings;
use crate::state::{CitiesState, GuessState};
use crate::stats::{Stats, StatsType};
use vstd::prelude::*;

verus! {

#[derive(Clone, Copy, Debug, PartialEq, Eq, Structural, Default)]
pub enum Mode {
    #[default]
    Playing,
    Setting,
}

/// Where a round stands. Scoring a guess is a single step: it leaves the
/// round `AwaitingPair` again.
#[derive(Clone, Copy, Debug, PartialEq, Eq, Structural)]
pub enum Phase {
    /// A pair was asked for and has not come yet.
    AwaitingPair,
    /// A pair is shown and no guess was scored for it.
    Ready,
}

/// The events a session reacts to.
pub enum Msg {
    /// A guess, in whole kilometres.
    Guess(u32),
    /// The player submits what they typed.
    Submit,
    /// The player's input changed.
    InputValue(String),
    NoOp,
    /// The pair asked for by the fetch with this number.
    SetCities(u64, CitiesState),
    /// The fetch with this number failed.
    LoadFailed(u64),
    ChangeMode(Mode),
    UpdateSettings(Settings),
    ResetStats,
}

/// Outside work that a step asks for.
#[derive(Clone, Copy, Debug, PartialEq, Eq, Structural)]
pub enum Command {
    /// Fetch a pair for the current settings; answer with this number.
    FetchPair(u64),
    /// Store the series, as it now stands, under its key.
    StoreStats(StatsType),
    /// Delete the stored series.
    RemoveStats(StatsType),
    /// Store the current settings.
    StoreSettings,
}

/// Something that did not go as asked, for the player to see.
#[derive(Clone, Copy, Debug, PartialEq, Eq, Structural)]
pub enum Notice {
    /// The input is not a whole number of kilometres.
    InvalidInput,
    /// A guess came while no pair was shown.
    OutOfOrder,
    /// Settings with a zero radius were refused.
    InvalidSettings,
    /// The pair could not be had; another was asked for.
    LoadFailed,
}

/// What a scored guess gives: the signed error in metres, and the score in
/// thousandths of a point.
#[derive(Clone, Copy, Debug, PartialEq, Eq, Structural)]
pub struct GuessOutcome {
    pub signed_error: i64,
    pub score: u64,
}

/// What a step gives back besides the new state.
pub struct Step {
    /// Whether what is shown changed.
    pub redraw: bool,
    pub commands: Vec<Command>,
    pub outcome: Option<GuessOutcome>,
    pub notice: Option<Notice>,
}

pub struct StepView {
    pub redraw: bool,
    pub commands: Seq<Command>,
    pub outcome: Option<GuessOutcome>,
    pub notice: Option<Notice>,
}

impl View for Step {
    type V = StepView;

    open spec fn view(&self) -> StepView {
        StepView {
            redraw: self.redraw,
            commands: self.commands@,
            outcome: self.outcome,
            notice: self.notice,
        }
    }
}

/// A session: the round, the player's input, the settings and the two
/// series of statistics.
pub struct App {
    round: u64,
    phase: Phase,
    cities_state: Option<CitiesState>,
    guess_state: GuessState,
    settings: Settings,
    mode: Mode,
    offby_km: Stats,
    normalised_score: Stats,
}

pub struct AppView {
    /// Number of the latest fetch asked for.
    pub round: u64,
    pub phase: Phase,
    /// The latest pair received.
    pub cities: Option<CitiesState>,
    pub input: Seq<char>,
    pub has_guessed: bool,
    pub settings: Settings,
    pub mode: Mode,
    /// Signed errors of the guesses, in metres.
    pub offby: Seq<i64>,
    /// Scores of the guesses.
    pub normalised: Seq<i64>,
}

impl View for App {
    type V = AppView;

    closed spec fn view(&self) -> AppView {
        AppView {
            round: self.round,
            phase: self.phase,
            cities: self.cities_state,
            input: self.guess_state.current_input@,
            has_guessed: self.guess_state.has_guessed,
            settings: self.settings,
            mode: self.mode,
            offby: self.offby_km@,
            normalised: self.normalised_score@,
        }
    }
}

pub open spec fn is_digit(c: char) -> bool {
    '0' <= c <= '9'
}

/// Value of a string of decimal digits.
pub open spec fn digits_value(s: Seq<char>) -> int
    decreases s.len(),
{
    if s.len() == 0 {
        0
    } else {
        10 * digits_value(s.drop_last()) + (s.last() as int - '0' as int)
    }
}

/// `s` without one leading `+`.
pub open spec fn unsigned_digits(s: Seq<char>) -> Seq<char> {
    if s.len() > 0 && s[0] == '+' {
        s.drop_first()
    } else {
        s
    }
}

/// A whole number written in decimal, with an optional leading `+`, that
/// fits in `u64`.
pub open spec fn parse_u64(s: Seq<char>) -> Option<u64> {
    let d = unsigned_digits(s);
    if d.len() > 0 && (forall|i: int| 0 <= i < d.len() ==> is_digit(#[trigger] d[i])) && digits_value(
        d,
    ) <= u64::MAX {
        Some(digits_value(d) as u64)
    } else {
        None
    }
}

/// Such a number that also fits in `u32`.
pub open spec fn parse_u32(s: Seq<char>) -> Option<u32> {
    match parse_u64(s) {
        Some(v) => if v <= u32::MAX {
            Some(v as u32)
        } else {
            None
        },
        None => None,
    }
}

/// Reads a whole number written in decimal, with an optional leading `+`.
pub fn parse_decimal(input: &str) -> (r: Option<u64>)
    ensures
        r == parse_u64(input@),
{
    let n = input.unicode_len();
    let start: usize = if n > 0 && input.get_char(0) == '+' { 1 } else { 0 };
    let ghost d = unsigned_digits(input@);
    assert(d == input@.subrange(start as int, n as int));
    if start == n {
        assert(d.len() == 0);
        return None;
    }
    let cap: u128 = 0x1_0000_0000_0000_0000;
    let mut value: u128 = 0;
    let mut i: usize = start;
    while i < n
        invariant
            n == input@.len(),
            d == input@.subrange(start as int, n as int),
            d == unsigned_digits(input@),
            start <= i <= n,
            cap == 0x1_0000_0000_0000_0000,
            value <= cap,
            forall|j: int| start <= j < i ==> is_digit(#[trigger] input@[j]),
            value == if digits_value(input@.subrange(start as int, i as int)) < cap {
                digits_value(input@.subrange(start as int, i as int))
            } else {
                cap as int
            },
        decreases n - i,
    {
        let c = input.get_char(i);
        let code = c as u32;
        if code < 48 || code > 57 {
            assert(d[i - start] == c);
            assert(!is_digit(d[i - start]));
            assert(!(forall|k: int| 0 <= k < d.len() ==> is_digit(#[trigger] d[k])));
            return None;
        }
        let ghost before = input@.subrange(start as int, i as int);
        let ghost after = input@.subrange(start as int, i + 1);
        assert(after.drop_last() == before);
        let digit = (code - 48) as u128;
        value = if value * 10 + digit >= cap { cap } else { value * 10 + digit };
        i = i + 1;
    }
    assert(forall|j: int| 0 <= j < d.len() ==> #[trigger] d[j] == input@[start + j]);
    assert(input@.subrange(start as int, n as int) == d);
    if value >= cap {
        None
    } else {
        Some(value as u64)
    }
}

/// Reads a guess in whole kilometres.
pub fn parse_guess(input: &str) -> (r: Option<u32>)
    ensures
        r == parse_u32(input@),
{
    match parse_decimal(input) {
        Some(v) => if v <= 0xffff_ffff {
            Some(v as u32)
        } else {
            None
        },
        None => None,
    }
}

/// The number of the fetch after `round`.
pub open spec fn next_round(round: u64) -> u64 {
    if round == u64::MAX {
        0
    } else {
        (round + 1) as u64
    }
}

/// The outcome of guessing `guess_km` on the pair of `s`.
pub open spec fn guess_outcome(s: AppView, guess_km: u32) -> GuessOutcome {
    let off = guess_km * 1000 - s.cities.unwrap().expected_distance;
    GuessOutcome {
        signed_error: off as i64,
        score: score_of(off, score_span(Some(s.settings.radius))) as u64,
    }
}

/// A step that changes nothing.
pub open spec fn quiet() -> StepView {
    StepView { redraw: false, commands: Seq::empty(), outcome: None, notice: None }
}

/// A step that only shows `notice`.
pub open spec fn noticed(notice: Notice) -> StepView {
    StepView { redraw: true, commands: Seq::empty(), outcome: None, notice: Some(notice) }
}

/// A step that changed what is shown and asks for `commands`.
pub open spec fn changed(commands: Seq<Command>) -> StepView {
    StepView { redraw: true, commands, outcome: None, notice: None }
}

/// A guess: scored only while a pair is shown. Scoring records the error and
/// the score, asks for both series to be stored and for the next pair, and
/// clears the input.
pub open spec fn guess_step(s: AppView, guess_km: u32) -> (AppView, StepView) {
    if s.phase == Phase::Ready {
        let o = guess_outcome(s, guess_km);
        let n = next_round(s.round);
        (
            AppView {
                round: n,
                phase: Phase::AwaitingPair,
                input: Seq::empty(),
                has_guessed: false,
                offby: s.offby.push(o.signed_error),
                normalised: s.normalised.push(o.score as i64),
                ..s
            },
            StepView {
                redraw: true,
                commands: seq![
                    Command::StoreStats(StatsType::Offby),
                    Command::StoreStats(StatsType::Normalised),
                    Command::FetchPair(n),
                ],
                outcome: Some(o),
                notice: None,
            },
        )
    } else {
        (s, noticed(Notice::OutOfOrder))
    }
}

/// What `msg` does to a session in state `s`.
pub open spec fn next(s: AppView, msg: Msg) -> (AppView, StepView) {
    match msg {
        Msg::Guess(g) => guess_step(s, g),
        Msg::Submit => match parse_u32(s.input) {
            Some(g) => guess_step(s, g),
            None => (s, noticed(Notice::InvalidInput)),
        },
        Msg::InputValue(v) => (AppView { input: v@, ..s }, changed(Seq::empty())),
        Msg::NoOp => (s, quiet()),
        Msg::SetCities(id, c) => if id == s.round && s.phase == Phase::AwaitingPair {
            (AppView { phase: Phase::Ready, cities: Some(c), ..s }, changed(Seq::empty()))
        } else {
            (s, quiet())
        },
        Msg::LoadFailed(id) => if id == s.round && s.phase == Phase::AwaitingPair {
            let n = next_round(s.round);
            (
                AppView { round: n, ..s },
                StepView {
                    redraw: true,
                    commands: seq![Command::FetchPair(n)],
                    outcome: None,
                    notice: Some(Notice::LoadFailed),
                },
            )
        } else {
            (s, quiet())
        },
        Msg::ChangeMode(m) => (AppView { mode: m, ..s }, changed(Seq::empty())),
        Msg::UpdateSettings(st) => if st.radius == 0 {
            (s, noticed(Notice::InvalidSettings))
        } else {
            let n = next_round(s.round);
            (
                AppView {
                    settings: st,
                    mode: Mode::Playing,
                    round: n,
                    phase: Phase::AwaitingPair,
                    ..s
                },
                changed(seq![Command::StoreSettings, Command::FetchPair(n)]),
            )
        },
        Msg::ResetStats => (
            AppView { offby: Seq::empty(), normalised: Seq::empty(), ..s },
            changed(
                seq![
                    Command::RemoveStats(StatsType::Offby),
                    Command::RemoveStats(StatsType::Normalised),
                ],
            ),
        ),
    }
}

/// A guess on a shown pair is scored once and starts the next round: the
/// input is cleared, each series grows by exactly the guess's error and
/// score, the session awaits a pair again, and exactly one fetch is asked
/// for, numbered after the current one. A second guess is then refused.
pub proof fn lemma_guess_starts_next_round(s: AppView, guess_km: u32)
    requires
        s.phase == Phase::Ready,
    ensures
        ({
            let (t, step) = next(s, Msg::Guess(guess_km));
            let o = guess_outcome(s, guess_km);
            &&& step.redraw
            &&& step.outcome == Some(o)
            &&& t.input == Seq::<char>::empty()
            &&& !t.has_guessed
            &&& t.phase == Phase::AwaitingPair
            &&& t.offby == s.offby.push(o.signed_error)
            &&& t.normalised == s.normalised.push(o.score as i64)
            &&& step.commands.filter(|c: Command| c is FetchPair) == seq![Command::FetchPair(next_round(s.round))]
            &&& next(t, Msg::Guess(guess_km)).0 == t
            &&& next(t, Msg::Guess(guess_km)).1.notice == Some(Notice::OutOfOrder)
        }),
{
    let cmds = seq![
        Command::StoreStats(StatsType::Offby),
        Command::StoreStats(StatsType::Normalised),
        Command::FetchPair(next_round(s.round)),
    ];
    reveal_with_fuel(Seq::filter, 4);
    assert(cmds.drop_last() =~= seq![
        Command::StoreStats(StatsType::Offby),
        Command::StoreStats(StatsType::Normalised),
    ]);
    assert(cmds.drop_last().drop_last() =~= seq![Command::StoreStats(StatsType::Offby)]);
    assert(cmds.drop_last().drop_last().drop_last() =~= Seq::<Command>::empty());
    assert(cmds.filter(|c: Command| c is FetchPair) =~= seq![Command::FetchPair(next_round(s.round))]);
}

/// The settings a session starts with: the stored ones, unless there are
/// none or their radius is zero.
pub open spec fn starting_settings(stored: Option<Settings>) -> Settings {
    match stored {
        Some(s) => if s.radius > 0 {
            s
        } else {
            Settings::spec_default()
        },
        None => Settings::spec_default(),
    }
}

/// The state of a fresh session over the stored settings and series, the
/// first fetch asked for.
pub open spec fn initial(stored: Option<Settings>, offby: Seq<i64>, normalised: Seq<i64>) -> AppView {
    AppView {
        round: 0,
        phase: Phase::AwaitingPair,
        cities: None,
        input: Seq::empty(),
        has_guessed: false,
        settings: starting_settings(stored),
        mode: Mode::Playing,
        offby,
        normalised,
    }
}

impl App {
    /// The statistics are consistent, a shown round has its pair, and the
    /// radius that normalises the score is not zero.
    pub closed spec fn wf(&self) -> bool {
        &&& self.offby_km.wf()
        &&& self.normalised_score.wf()
        &&& self.phase == Phase::Ready ==> self.cities_state is Some
        &&& self.settings.radius > 0
    }

    /// What well-formedness gives a caller: a shown round holds its pair,
    /// and the radius that normalises the score is not zero.
    pub proof fn lemma_wf(&self)
        requires
            self.wf(),
        ensures
            self@.phase == Phase::Ready ==> self@.cities is Some,
            self@.settings.radius > 0,
    {
    }

    fn bump_round(&mut self) -> (n: u64)
        ensures
            n == next_round(old(self).round),
            *final(self) == (App { round: n, ..*old(self) }),
    {
        self.round = if self.round == u64::MAX { 0 } else { self.round + 1 };
        self.round
    }

    /// Starts a session with what was stored, waiting for the first pair.
    /// The commands store the settings in use and fetch the pair.
    pub fn create(stored: Option<Settings>, offby_km: Stats, normalised_score: Stats) -> (r: (
        App,
        Vec<Command>,
    ))
        requires
            offby_km.wf(),
            normalised_score.wf(),
        ensures
            r.0.wf(),
            r.0@ == initial(stored, offby_km@, normalised_score@),
            r.1@ == seq![Command::StoreSettings, Command::FetchPair(0)],
    {
        let app = App {
            round: 0,
            phase: Phase::AwaitingPair,
            cities_state: None,
            guess_state: GuessState::new(),
            settings: match stored {
                Some(s) if s.radius > 0 => s,
                _ => Settings::default(),
            },
            mode: Mode::Playing,
            offby_km,
            normalised_score,
        };
        let commands = vec![Command::StoreSettings, Command::FetchPair(0)];
        proof {
            assert(app@.input == Seq::<char>::empty());
        }
        (app, commands)
    }

    fn guess(&mut self, guess_km: u32) -> (r: Step)
        requires
            old(self).wf(),
        ensures
            final(self).wf(),
            (final(self)@, r@) == guess_step(old(self)@, guess_km),
    {
        if self.phase != Phase::Ready {
            return Step {
                redraw: true,
                commands: Vec::new(),
                outcome: None,
                notice: Some(Notice::OutOfOrder),
            };
        }
        let expected = match &self.cities_state {
            Some(c) => c.expected_distance,
            None => 0,
        };
        let off: i64 = guess_km as i64 * 1000 - expected as i64;
        let points: u64 = match score(off, Some(self.settings.radius)) {
            Ok(v) => v,
            Err(_) => 0,
        };
        proof {
            crate::geo::lemma_score_bounds(off as int, Some(self.settings.radius));
        }
        let ghost o = guess_outcome(self@, guess_km);
        assert(o.signed_error == off && o.score == points);
        self.offby_km.add_guess(off);
        self.normalised_score.add_guess(points as i64);
        self.guess_state.has_guessed = true;
        let n = self.bump_round();
        self.phase = Phase::AwaitingPair;
        self.guess_state.current_input = String::new();
        self.guess_state.has_guessed = false;
        Step {
            redraw: true,
            commands: vec![
                Command::StoreStats(StatsType::Offby),
                Command::StoreStats(StatsType::Normalised),
                Command::FetchPair(n),
            ],
            outcome: Some(GuessOutcome { signed_error: off, score: points }),
            notice: None,
        }
    }

    /// Applies one event: the new state and the step are `next` of the old
    /// state and the event.
    pub fn update(&mut self, msg: Msg) -> (r: Step)
        requires
            old(self).wf(),
        ensures
            final(self).wf(),
            final(self)@ == next(old(self)@, msg).0,
            r@ == next(old(self)@, msg).1,
    {
        match msg {
            Msg::Guess(g) => self.guess(g),
            Msg::Submit => match parse_guess(self.guess_state.current_input.as_str()) {
                Some(g) => self.guess(g),
                None => Step {
                    redraw: true,
                    commands: Vec::new(),
                    outcome: None,
                    notice: Some(Notice::InvalidInput),
                },
            },
            Msg::InputValue(v) => {
                self.guess_state.current_input = v;
                Step { redraw: true, commands: Vec::new(), outcome: None, notice: None }
            },
            Msg::NoOp => Step { redraw: false, commands: Vec::new(), outcome: None, notice: None },
            Msg::SetCities(id, c) => {
                if id == self.round && self.phase == Phase::AwaitingPair {
                    self.cities_state = Some(c);
                    self.phase = Phase::Ready;
                    Step { redraw: true, commands: Vec::new(), outcome: None, notice: None }
                } else {
                    Step { redraw: false, commands: Vec::new(), outcome: None, notice: None }
                }
            },
            Msg::LoadFailed(id) => {
                if id == self.round && self.phase == Phase::AwaitingPair {
                    let n = self.bump_round();
                    let commands = vec![Command::FetchPair(n)];
                    assert(commands@ =~= seq![Command::FetchPair(n)]);
                    Step {
                        redraw: true,
                        commands,
                        outcome: None,
                        notice: Some(Notice::LoadFailed),
                    }
                } else {
                    Step { redraw: false, commands: Vec::new(), outcome: None, notice: None }
                }
            },
            Msg::ChangeMode(m) => {
                self.mode = m;
                Step { redraw: true, commands: Vec::new(), outcome: None, notice: None }
            },
            Msg::UpdateSettings(st) => {
                if st.radius == 0 {
                    Step {
                        redraw: true,
                        commands: Vec::new(),
                        outcome: None,
                        notice: Some(Notice::InvalidSettings),
                    }
                } else {
                    self.settings = st;
                    self.mode = Mode::Playing;
                    let n = self.bump_round();
                    self.phase = Phase::AwaitingPair;
                    let commands = vec![Command::StoreSettings, Command::FetchPair(n)];
                    assert(commands@ =~= seq![Command::StoreSettings, Command::FetchPair(n)]);
                    Step {
                        redraw: true,
                        commands,
                        outcome: None,
                        notice: None,
                    }
                }
            },
            Msg::ResetStats => {
                self.offby_km.reset();
                self.normalised_score.reset();
                let commands = vec![
                    Command::RemoveStats(StatsType::Offby),
                    Command::RemoveStats(StatsType::Normalised),
                ];
                assert(commands@ =~= seq![
                    Command::RemoveStats(StatsType::Offby),
                    Command::RemoveStats(StatsType::Normalised),
                ]);
                Step {
                    redraw: true,
                    commands,
                    outcome: None,
                    notice: None,
                }
            },
        }
    }

    /// Number of the latest fetch asked for.
    pub fn round(&self) -> (r: u64)
        ensures
            r == self@.round,
    {
        self.round
    }

    /// While a pair is shown, the session holds it.
    pub fn phase(&self) -> (r: Phase)
        requires
            self.wf(),
        ensures
            r == self@.phase,
            r == Phase::Ready ==> self@.cities is Some,
    {
        self.phase
    }

    /// The latest pair received.
    pub fn cities_state(&self) -> (r: &Option<CitiesState>)
        ensures
            *r == self@.cities,
    {
        &self.cities_state
    }

    pub fn guess_state(&self) -> (r: &GuessState)
        ensures
            r.current_input@ == self@.input,
            r.has_guessed == self@.has_guessed,
    {
        &self.guess_state
    }

    pub fn settings(&self) -> (r: Settings)
        ensures
            r == self@.settings,
    {
        self.settings
    }

    pub fn mode(&self) -> (r: Mode)
        ensures
            r == self@.mode,
    {
        self.mode
    }

    /// The series `mode`.
    pub fn stats(&self, mode: StatsType) -> (r: &Stats)
        requires
            self.wf(),
        ensures
            r.wf(),
            r@ == match mode {
                StatsType::Offby => self@.offby,
                StatsType::Normalised => self@.normalised,
            },
    {
        match mode {
            StatsType::Offby => &self.offby_km,
            StatsType::Normalised => &self.normalised_score,
        }
    }
}

} // verus!
