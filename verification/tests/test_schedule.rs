use antevorta::clock::Clock;
use antevorta::eod::{parse_date, AntevortaInsufficientDataError, EodRawCommon};
use antevorta::input::{
    constant_series, HashMapSourceSim, HashMapSourceSimBuilder, SimDataRep, SimDataSource,
};
use antevorta::money::{CashValue, Rate};
use antevorta::report::{DefaultUKReporter, FlowReporter, UKAnnualReport};
use antevorta::schedule::Schedule;

const DAY_SECONDS: i64 = 86_400;
const LAST_SECOND_OF_9999: i64 = 253_402_300_799;

fn day(index: i64) -> i64 {
    index * DAY_SECONDS
}

#[test]
fn every_day_triggers_on_every_timestamp_with_a_date() {
    assert!(Schedule::EveryDay.check(0));
    assert!(Schedule::EveryDay.check(-1));
    assert!(Schedule::EveryDay.check(LAST_SECOND_OF_9999));
    assert!(!Schedule::EveryDay.check(LAST_SECOND_OF_9999 + 1));
    assert!(!Schedule::EveryDay.check(i64::MIN));
}

#[test]
fn every_friday_triggers_on_fridays_only() {
    // 1 January 1970 was a Thursday.
    assert!(!Schedule::EveryFriday.check(day(0)));
    assert!(Schedule::EveryFriday.check(day(1)));
    assert!(Schedule::EveryFriday.check(day(1) + 86_399));
    assert!(!Schedule::EveryFriday.check(day(2)));
    assert!(Schedule::EveryFriday.check(day(8)));
    let fridays = (0..70).filter(|d| Schedule::EveryFriday.check(day(*d))).count();
    assert_eq!(fridays, 10);
}

#[test]
fn monthly_schedules_go_by_the_day_of_the_month() {
    assert!(Schedule::StartOfMonth.check(day(0)));
    assert!(Schedule::StartOfMonth.check(day(31)));
    assert!(Schedule::StartOfMonth.check(day(59)));
    assert!(!Schedule::StartOfMonth.check(day(58)));
    assert!(Schedule::EveryMonth(27).check(day(26)));
    assert!(Schedule::EveryMonth(27).check(day(31 + 26)));
    assert!(!Schedule::EveryMonth(27).check(day(27)));
    // Days are compared by their lowest eight bits.
    assert!(Schedule::EveryMonth(256 + 27).check(day(26)));
    assert!(!Schedule::EveryMonth(31).check(day(31 + 27)));
}

#[test]
fn yearly_and_dated_schedules_go_by_day_month_and_year() {
    // 1 April is the 91st day of a common year.
    assert!(Schedule::EveryYear(1, 4).check(day(90)));
    assert!(Schedule::EveryYear(1, 4).check(day(365 + 90)));
    assert!(!Schedule::EveryYear(1, 4).check(day(91)));
    assert!(!Schedule::EveryYear(1, 5).check(day(90)));
    // 1972 is a leap year: 1 April is its 92nd day.
    assert!(Schedule::EveryYear(1, 4).check(day(730 + 91)));
    assert!(Schedule::SpecificDate(25, 12, 1970).check(day(358)));
    assert!(!Schedule::SpecificDate(25, 12, 1971).check(day(358)));
    assert!(Schedule::SpecificDate(25, 12, 1971).check(day(365 + 358)));
    assert!(Schedule::SpecificDate(31, 12, 1969).check(-1));
    assert!(Schedule::SpecificEpoch(12_345).check(12_345));
    assert!(!Schedule::SpecificEpoch(12_345).check(12_346));
}

#[test]
fn last_period_of_a_weekly_schedule_is_a_week_before() {
    assert_eq!(Schedule::EveryFriday.last_period(day(8)), Some(day(1)));
    assert_eq!(Schedule::EveryFriday.last_period(5), Some(5 - 604_800));
    assert_eq!(Schedule::EveryFriday.last_period(LAST_SECOND_OF_9999 + 1), None);
}

#[test]
fn last_period_of_a_yearly_schedule_is_the_same_date_a_year_before() {
    let schedule = Schedule::EveryYear(1, 4);
    assert_eq!(schedule.last_period(day(365 + 90)), Some(day(90)));
    assert_eq!(schedule.last_period(day(365 + 90) + 3_600), Some(day(90) + 3_600));
    // From a leap year back to a common year the day of the year shifts.
    assert_eq!(schedule.last_period(day(730 + 91)), Some(day(365 + 90)));
    // 29 February 1972 has no counterpart in 1971.
    assert_eq!(schedule.last_period(day(730 + 59)), None);
}

#[test]
fn last_period_of_a_monthly_schedule_is_the_same_day_a_month_before() {
    // 15 March back to 15 February.
    assert_eq!(Schedule::EveryMonth(15).last_period(day(73)), Some(day(45)));
    assert_eq!(Schedule::StartOfMonth.last_period(day(59)), Some(day(31)));
    // 31 March has no counterpart in February.
    assert_eq!(Schedule::EveryMonth(31).last_period(day(89)), None);
    // The month before January is December of the year before.
    assert_eq!(Schedule::StartOfMonth.last_period(day(0)), Some(day(-31)));
    assert_eq!(Schedule::EveryMonth(15).last_period(day(14) + 7), Some(day(-17) + 7));
    // 15 January 1973 back to 15 December 1972, a leap year.
    assert_eq!(Schedule::EveryMonth(15).last_period(day(1096 + 14)), Some(day(1096 - 17)));
}

#[test]
fn other_schedules_have_no_last_period() {
    assert_eq!(Schedule::EveryDay.last_period(day(100)), None);
    assert_eq!(Schedule::SpecificEpoch(day(100)).last_period(day(100)), None);
    assert_eq!(Schedule::SpecificDate(1, 1, 1970).last_period(day(0)), None);
}

#[test]
fn monthly_filter_keeps_the_first_days_of_months() {
    let dates = vec![day(0), day(1), day(31) + 3_600, day(58), day(59), LAST_SECOND_OF_9999 + 1];
    assert_eq!(EodRawCommon::filter_monthly(&dates), vec![day(0), day(31) + 3_600, day(59)]);
    assert_eq!(EodRawCommon::filter_monthly(&Vec::new()), Vec::<i64>::new());
    assert_eq!(AntevortaInsufficientDataError.message(), "Insufficient Data Error");
}

#[test]
fn clock_runs_over_its_days_and_stops() {
    assert!(Clock::with_length_in_days(0, 1_000_001).is_none());
    assert!(Clock::with_length_in_days(i64::MAX, 1).is_none());
    let mut clock = Clock::with_length_in_days(10, 3).unwrap();
    assert_eq!(clock.peek(), vec![10, 10 + day(1), 10 + day(2), 10 + day(3)]);
    assert_eq!(clock.now(), 10);
    let mut seen = Vec::new();
    while clock.has_next() {
        clock.tick();
        seen.push(clock.now());
    }
    assert_eq!(seen, vec![10 + day(1), 10 + day(2), 10 + day(3)]);
    clock.tick();
    assert_eq!(clock.now(), 10 + day(3));
}

#[test]
fn series_holds_the_value_entered_last_for_a_date() {
    let mut series = SimDataRep::new();
    assert_eq!(series.get(5), None);
    series.insert(5, Rate::from_ppb(1));
    series.insert(6, Rate::from_ppb(2));
    series.insert(5, Rate::from_ppb(3));
    assert_eq!(series.get(5), Some(Rate::from_ppb(3)));
    assert_eq!(series.get(6), Some(Rate::from_ppb(2)));
    assert_eq!(series.get(7), None);
}

#[test]
fn source_answers_from_its_three_series() {
    let clock = Clock::with_length_in_days(0, 2).unwrap();
    let source: HashMapSourceSim = HashMapSourceSimBuilder::start()
        .with_inflation(constant_series(Rate::from_ppb(10), &clock))
        .with_rates(constant_series(Rate::from_ppb(20), &clock))
        .build();
    assert_eq!(source.get_current_inflation(day(2)), Some(Rate::from_ppb(10)));
    assert_eq!(source.get_current_inflation(day(3)), None);
    assert_eq!(source.get_current_interest_rate(day(0)), Some(Rate::from_ppb(20)));
    assert_eq!(source.get_current_house_price_return(day(0)), None);
    let other = HashMapSourceSim::new(SimDataRep::new(), SimDataRep::new(), {
        let mut series = SimDataRep::new();
        series.insert(1, Rate::zero());
        series
    });
    assert_eq!(other.get_current_house_price_return(1), Some(Rate::from_ppb(0)));
}

#[test]
fn reporter_sums_what_it_is_told_and_reports_on_schedule() {
    let mut reporter = DefaultUKReporter::new(Schedule::EveryYear(1, 4));
    reporter.paid_gross_income(CashValue::from_units(100));
    reporter.paid_gross_income(CashValue::from_units(50));
    reporter.paid_net_income(CashValue::from_units(120));
    reporter.paid_tax(CashValue::from_units(30));
    reporter.paid_expense(CashValue::from_units(7));
    let one = CashValue::from_units(1);
    assert_eq!(reporter.check(one, one, one, one, day(89)), None);
    assert_eq!(
        reporter.check(
            CashValue::from_units(1),
            CashValue::from_units(2),
            CashValue::from_units(3),
            CashValue::from_units(4),
            day(90)
        ),
        Some(UKAnnualReport {
            isa: CashValue::from_units(1),
            gia: CashValue::from_units(2),
            sipp: CashValue::from_units(3),
            cash: CashValue::from_units(4),
            gross_income: CashValue::from_units(150),
            net_income: CashValue::from_units(120),
            expense: CashValue::from_units(7),
            tax_paid: CashValue::from_units(30),
        })
    );
    reporter.reset();
    assert_eq!(reporter.gross_income_sum.minor(), 0);
    assert_eq!(reporter.tax_paid_sum.minor(), 0);
}

#[test]
fn money_rounds_products_down() {
    let third = Rate::from_ppb(333_333_333);
    assert_eq!(third.of(CashValue::from_minor(100)).minor(), 33);
    assert_eq!(third.of(CashValue::from_minor(-100)).minor(), -34);
    assert_eq!(third.grow(CashValue::from_minor(100)).minor(), 133);
    assert_eq!(Rate::from_ppb(-1_000_000_000).grow(CashValue::from_minor(100)).minor(), 0);
    assert_eq!(CashValue::from_units(12).minor(), 1_200);
    assert_eq!(CashValue::from_minor(-7).split(2).minor(), -4);
    assert_eq!(CashValue::from_minor(7).plus(CashValue::from_minor(5)).minor(), 12);
    assert_eq!(CashValue::from_minor(7).minus(CashValue::from_minor(5)).minor(), 2);
    assert_eq!(antevorta::money::floor_div(-7, 2), -4);
    assert_eq!(CashValue::max_value().minor(), i64::MAX);
    assert_eq!(CashValue::zero(), CashValue::from_minor(0));
    assert_eq!(third.ppb(), 333_333_333);
}

#[test]
fn a_date_is_stamped_at_nine_on_its_day() {
    // 1 October 2021 begins 18901 days after the first of January 1970.
    assert_eq!(parse_date("2021-10-01"), Some(18_901 * 86_400 + 9 * 3_600));
    assert_eq!(parse_date("1970-01-01"), Some(32_400));
    assert_eq!(parse_date("+1970-01-02"), Some(86_400 + 32_400));
    assert_eq!(parse_date("1969-12-31"), Some(-86_400 + 32_400));
    assert_eq!(parse_date("2020-02-29"), Some(18_321 * 86_400 + 32_400));
    assert_eq!(parse_date("-0000-01-01"), parse_date("0000-01-01"));
    assert!(parse_date("-0001-01-01").unwrap() < parse_date("0000-01-01").unwrap());
}

#[test]
fn text_that_writes_no_date_has_no_stamp() {
    for text in [
        "",
        "-",
        "2021-10-1",
        "2021-1-01",
        "21-10-01",
        "2021/10/01",
        "2021-10-01 ",
        " 2021-10-01",
        "2021-10-0a",
        "2021-13-01",
        "2021-00-10",
        "2021-10-00",
        "2021-02-29",
        "2021-04-31",
        "1900-02-29",
        "++2021-10-01",
        "２０２１-10-01",
    ] {
        assert_eq!(parse_date(text), None, "{text:?}");
    }
    assert!(parse_date("2000-02-29").is_some());
    assert!(parse_date("9999-12-31").is_some());
    assert!(parse_date("-9999-01-01").is_some());
}

#[test]
fn dates_convert_in_their_order_and_the_first_of_a_month_is_kept() {
    let dates = vec![
        String::from("2021-10-02"),
        String::from("2021-10-01"),
        String::from("2021-11-01"),
    ];
    let stamps = EodRawCommon::convert_dates_to_epoch(&dates);
    let first = 18_901 * 86_400 + 32_400;
    assert_eq!(stamps, vec![first + 86_400, first, first + 31 * 86_400]);
    assert_eq!(EodRawCommon::filter_monthly(&stamps), vec![first, first + 31 * 86_400]);
    assert_eq!(EodRawCommon::convert_dates_to_epoch(&Vec::new()), Vec::<i64>::new());
}
