//! Logging and panics.

use ap_client::clock::{elapsed, WallTime};
use ap_client::startup::{log_directory, log_file, log_greeting, panic_message, LogDirectory};
use chrono::{Datelike, Days, NaiveDate};

#[test]
fn the_log_goes_to_the_current_directory_as_a_last_resort() {
    assert_eq!(log_directory(true), LogDirectory::OfMod);
    assert_eq!(log_greeting(log_directory(true)), "Logger initialized.");
    assert_eq!(log_directory(false), LogDirectory::Current);
    assert_eq!(
        log_greeting(log_directory(false)),
        "Failed to determine mod directory, logging to current directory instead."
    );
}

#[test]
fn log_files_are_named_as_chrono_formats_their_day() {
    let mut days = vec![NaiveDate::MIN, NaiveDate::MAX];
    for year in [-12345, -1, 0, 1, 99, 999, 1000, 2024, 2025, 9999, 10_000, 123_456] {
        let mut day = NaiveDate::from_ymd_opt(year, 1, 1).unwrap();
        while day.year() == year {
            days.push(day);
            day = day + Days::new(1);
        }
    }
    for day in days {
        assert_eq!(
            log_file(day.year(), day.month(), day.day()),
            day.format("archipelago-%Y-%m-%d.log").to_string()
        );
    }
    assert_eq!(log_file(2024, 2, 9), "archipelago-2024-02-09.log");
}

#[test]
fn panics_are_shown_with_their_backtrace() {
    assert_eq!(panic_message("index out of bounds", "0: main"), "Rust panic: index out of bounds\n0: main");
}

#[test]
fn time_does_not_run_backwards() {
    assert_eq!(elapsed(3, 10), 7);
    assert_eq!(elapsed(10, 3), 0);
    assert_eq!(WallTime { secs: 2, nanos: 5 }.total_nanos(), 2_000_000_005);
    assert_eq!(WallTime { secs: -1, nanos: 999_999_999 }.total_nanos(), -1);
}
