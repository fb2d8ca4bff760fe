use earth_distance_game::game::{parse_decimal, parse_guess, App, Command, GuessOutcome, Mode, Msg, Notice, Phase};
use earth_distance_game::geo::Coord;
use earth_distance_game::settings::Settings;
use earth_distance_game::state::{CitiesState, Place};
use earth_distance_game::stats::{Stats, StatsType};

fn singapore_london() -> CitiesState {
    CitiesState {
        expected_distance: 10_845_290,
        first_city: Place {
            name: "Singapore".to_string(),
            country: "Singapore".to_string(),
            iso2: "SG".to_string(),
            coord: Some(Coord::new(1_352_100_000_000_000, 103_819_800_000_000_000)),
        },
        second_city: Place {
            name: "London".to_string(),
            country: "United Kingdom".to_string(),
            iso2: "GB".to_string(),
            coord: Some(Coord::new(51_507_200_000_000_000, -127_600_000_000_000)),
        },
    }
}

fn fresh() -> App {
    let (app, commands) = App::create(None, Stats::new(), Stats::new());
    assert_eq!(commands, vec![Command::StoreSettings, Command::FetchPair(0)]);
    app
}

#[test]
fn fresh_session_awaits_first_pair() {
    let app = fresh();
    assert_eq!(app.phase(), Phase::AwaitingPair);
    assert_eq!(app.round(), 0);
    assert!(app.cities_state().is_none());
    assert_eq!(app.settings(), Settings::default());
    assert_eq!(app.settings().radius, 2_000_000);
    assert_eq!(app.mode(), Mode::Playing);
}

#[test]
fn end_to_end_round() {
    let mut app = fresh();
    let step = app.update(Msg::SetCities(0, singapore_london()));
    assert!(step.redraw);
    assert_eq!(app.phase(), Phase::Ready);
    assert_eq!(app.cities_state().as_ref().unwrap().expected_distance, 10_845_290);

    app.update(Msg::InputValue("10845".to_string()));
    assert_eq!(app.guess_state().current_input, "10845");
    let step = app.update(Msg::Submit);
    let outcome = step.outcome.unwrap();
    assert_eq!(outcome, GuessOutcome { signed_error: -290, score: 99_992 });
    // -0.29 km; the score rounds to 100 points
    assert_eq!((outcome.score + 500) / 1000, 100);
    assert_eq!(
        step.commands,
        vec![
            Command::StoreStats(StatsType::Offby),
            Command::StoreStats(StatsType::Normalised),
            Command::FetchPair(1),
        ]
    );
    assert_eq!(step.notice, None);
    assert_eq!(app.stats(StatsType::Offby).count(), 1);
    assert_eq!(app.stats(StatsType::Offby).wrong_by(), &vec![-290]);
    assert_eq!(app.stats(StatsType::Normalised).wrong_by(), &vec![99_992]);
    assert_eq!(app.phase(), Phase::AwaitingPair);
    assert_eq!(app.guess_state().current_input, "");
    assert!(!app.guess_state().has_guessed);
    assert_eq!(app.round(), 1);
}

#[test]
fn guess_while_awaiting_is_out_of_order() {
    let mut app = fresh();
    let step = app.update(Msg::Guess(100));
    assert_eq!(step.notice, Some(Notice::OutOfOrder));
    assert!(step.outcome.is_none());
    assert!(step.commands.is_empty());
    assert_eq!(app.stats(StatsType::Offby).count(), 0);
    assert_eq!(app.phase(), Phase::AwaitingPair);
}

#[test]
fn only_one_guess_per_pair() {
    let mut app = fresh();
    app.update(Msg::SetCities(0, singapore_london()));
    assert!(app.update(Msg::Guess(10_000)).outcome.is_some());
    let step = app.update(Msg::Guess(10_000));
    assert_eq!(step.notice, Some(Notice::OutOfOrder));
    assert_eq!(app.stats(StatsType::Offby).wrong_by(), &vec![-845_290]);
}

#[test]
fn unparsable_input_is_a_no_op() {
    let mut app = fresh();
    app.update(Msg::SetCities(0, singapore_london()));
    app.update(Msg::InputValue("ten".to_string()));
    let step = app.update(Msg::Submit);
    assert_eq!(step.notice, Some(Notice::InvalidInput));
    assert!(step.outcome.is_none());
    assert_eq!(app.phase(), Phase::Ready);
    assert_eq!(app.guess_state().current_input, "ten");
    assert_eq!(app.stats(StatsType::Offby).count(), 0);
}

#[test]
fn stale_pair_is_discarded() {
    let mut app = fresh();
    let step = app.update(Msg::SetCities(7, singapore_london()));
    assert!(!step.redraw);
    assert_eq!(app.phase(), Phase::AwaitingPair);
    assert!(app.cities_state().is_none());
}

#[test]
fn pair_from_before_settings_change_is_discarded() {
    let mut app = fresh();
    let settings = Settings::new(Coord::new(0, 0), 500_000, 10_000);
    let step = app.update(Msg::UpdateSettings(settings));
    assert_eq!(step.commands, vec![Command::StoreSettings, Command::FetchPair(1)]);
    assert_eq!(app.settings(), settings);
    app.update(Msg::SetCities(0, singapore_london()));
    assert_eq!(app.phase(), Phase::AwaitingPair);
    app.update(Msg::SetCities(1, singapore_london()));
    assert_eq!(app.phase(), Phase::Ready);
}

#[test]
fn failed_load_asks_again() {
    let mut app = fresh();
    let step = app.update(Msg::LoadFailed(0));
    assert_eq!(step.notice, Some(Notice::LoadFailed));
    assert_eq!(step.commands, vec![Command::FetchPair(1)]);
    assert_eq!(app.phase(), Phase::AwaitingPair);
    let step = app.update(Msg::LoadFailed(0));
    assert!(step.commands.is_empty());
    assert_eq!(app.round(), 1);
}

#[test]
fn zero_radius_settings_are_refused() {
    let mut app = fresh();
    let step = app.update(Msg::UpdateSettings(Settings::new(Coord::new(0, 0), 0, 1)));
    assert_eq!(step.notice, Some(Notice::InvalidSettings));
    assert_eq!(app.settings(), Settings::default());
}

#[test]
fn mode_changes() {
    let mut app = fresh();
    app.update(Msg::ChangeMode(Mode::Setting));
    assert_eq!(app.mode(), Mode::Setting);
    app.update(Msg::UpdateSettings(Settings::default()));
    assert_eq!(app.mode(), Mode::Playing);
}

#[test]
fn no_op_changes_nothing() {
    let mut app = fresh();
    let step = app.update(Msg::NoOp);
    assert!(!step.redraw);
    assert!(step.commands.is_empty());
    assert_eq!(app.round(), 0);
}

#[test]
fn reset_after_three_guesses() {
    let mut app = App::create(None, Stats::from_history(&vec![5, -6]), Stats::new()).0;
    for round in 0..3u64 {
        app.update(Msg::SetCities(round, singapore_london()));
        app.update(Msg::Guess(10_845));
    }
    assert_eq!(app.stats(StatsType::Offby).count(), 5);
    let step = app.update(Msg::ResetStats);
    assert_eq!(
        step.commands,
        vec![
            Command::RemoveStats(StatsType::Offby),
            Command::RemoveStats(StatsType::Normalised),
        ]
    );
    let snap = app.stats(StatsType::Offby).snapshot();
    assert!(snap.wrong_by().is_empty());
    assert_eq!(snap.running_total(), 0);
    assert_eq!(snap.arithmetic_mean(), 0);
    assert_eq!(app.stats(StatsType::Normalised).count(), 0);
}

#[test]
fn parse_guess_accepts_decimal_numbers() {
    assert_eq!(parse_guess("10845"), Some(10_845));
    assert_eq!(parse_guess("+7"), Some(7));
    assert_eq!(parse_guess("007"), Some(7));
    assert_eq!(parse_guess("4294967295"), Some(u32::MAX));
}

#[test]
fn parse_guess_rejects_other_text() {
    assert_eq!(parse_guess(""), None);
    assert_eq!(parse_guess("+"), None);
    assert_eq!(parse_guess("-5"), None);
    assert_eq!(parse_guess("12a"), None);
    assert_eq!(parse_guess(" 12"), None);
    assert_eq!(parse_guess("1.5"), None);
    assert_eq!(parse_guess("4294967296"), None);
    assert_eq!(parse_guess("99999999999999999999"), None);
}

#[test]
fn parse_decimal_reads_u64() {
    assert_eq!(parse_decimal("18446744073709551615"), Some(u64::MAX));
    assert_eq!(parse_decimal("18446744073709551616"), None);
    assert_eq!(parse_decimal("2000000"), Some(2_000_000));
    assert_eq!(parse_decimal("x"), None);
}

#[test]
fn stored_settings_are_used_unless_radius_is_zero() {
    let stored = Settings::new(Coord::new(0, 0), 750_000, 5);
    let (app, _) = App::create(Some(stored), Stats::new(), Stats::new());
    assert_eq!(app.settings(), stored);
    let zero = Settings::new(Coord::new(0, 0), 0, 5);
    let (app, _) = App::create(Some(zero), Stats::new(), Stats::new());
    assert_eq!(app.settings(), Settings::default());
}

#[test]
fn mean_error_after_a_round_keeps_fraction() {
    let (mut app, _) = App::create(None, Stats::from_history(&vec![1]), Stats::new());
    app.update(Msg::SetCities(0, singapore_london()));
    app.update(Msg::Guess(10_845));
    assert_eq!(app.stats(StatsType::Offby).arithmetic_mean(), 145_500_000_000);
}
