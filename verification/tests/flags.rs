use rivatiker::mode::{ES_AWAYMODE_REQUIRED, ES_CONTINUOUS, ES_DISPLAY_REQUIRED, ES_SYSTEM_REQUIRED};
use rivatiker::{flags_for, State};

const ALL_MODES: [State; 4] = [
    State::Default,
    State::NoSystemSleep,
    State::NoMonitorSleep,
    State::AwayMode,
];

#[test]
fn exact_flag_sets() {
    assert_eq!(flags_for(State::Default), 0x8000_0000);
    assert_eq!(flags_for(State::NoSystemSleep), 0x8000_0001);
    assert_eq!(flags_for(State::NoMonitorSleep), 0x8000_0002);
    assert_eq!(flags_for(State::AwayMode), 0x8000_0040);
}

#[test]
fn flag_sets_match_named_flags() {
    assert_eq!(flags_for(State::Default), ES_CONTINUOUS);
    assert_eq!(flags_for(State::NoSystemSleep), ES_CONTINUOUS | ES_SYSTEM_REQUIRED);
    assert_eq!(flags_for(State::NoMonitorSleep), ES_CONTINUOUS | ES_DISPLAY_REQUIRED);
    assert_eq!(flags_for(State::AwayMode), ES_CONTINUOUS | ES_AWAYMODE_REQUIRED);
}

#[test]
fn every_mode_includes_continuous() {
    for m in ALL_MODES {
        assert_eq!(flags_for(m) & ES_CONTINUOUS, ES_CONTINUOUS);
    }
}

#[test]
fn flag_sets_pairwise_distinct() {
    for a in ALL_MODES {
        for b in ALL_MODES {
            if a != b {
                assert_ne!(flags_for(a), flags_for(b));
            }
        }
    }
}
