use termbg::classify;
use termbg::color_source;
use termbg::from_env_colorfgbg;
use termbg::from_winapi;
use termbg::latency;
use termbg::rgb;
use termbg::terminal;
use termbg::theme;
use termbg::ColorSource;
use termbg::Env;
use termbg::Error;
use termbg::Rgb;
use termbg::Terminal;
use termbg::Theme;

fn plain_env() -> Env {
    Env {
        inside_emacs: false,
        tmux: false,
        term: None,
        term_program: None,
        wt_session: false,
        native_console: false,
        colorfgbg: None,
    }
}

#[test]
fn emacs_marker_wins_over_everything() {
    let env = Env {
        inside_emacs: true,
        tmux: true,
        term: Some(String::from("screen")),
        term_program: Some(String::from("vscode")),
        wt_session: true,
        native_console: true,
        colorfgbg: None,
    };
    assert_eq!(terminal(&env), Terminal::Emacs);
}

#[test]
fn tmux_marker_selects_tmux() {
    let env = Env {
        tmux: true,
        term: Some(String::from("screen")),
        ..plain_env()
    };
    assert_eq!(terminal(&env), Terminal::Tmux);
}

#[test]
fn screen_prefixed_term_selects_screen() {
    let env = Env {
        term: Some(String::from("screen-256color")),
        ..plain_env()
    };
    assert_eq!(terminal(&env), Terminal::Screen);
    let env = Env {
        term: Some(String::from("xterm-256color")),
        ..plain_env()
    };
    assert_eq!(terminal(&env), Terminal::XtermCompatible);
}

#[test]
fn posix_default_is_xterm_compatible() {
    assert_eq!(terminal(&plain_env()), Terminal::XtermCompatible);
}

#[test]
fn native_console_default_is_windows() {
    let env = Env {
        native_console: true,
        ..plain_env()
    };
    assert_eq!(terminal(&env), Terminal::Windows);
}

#[test]
fn terminal_host_markers_select_xterm_on_native_console() {
    let env = Env {
        native_console: true,
        wt_session: true,
        ..plain_env()
    };
    assert_eq!(terminal(&env), Terminal::XtermCompatible);
    let env = Env {
        native_console: true,
        term_program: Some(String::from("vscode")),
        ..plain_env()
    };
    assert_eq!(terminal(&env), Terminal::XtermCompatible);
    let env = Env {
        native_console: true,
        term_program: Some(String::from("other")),
        ..plain_env()
    };
    assert_eq!(terminal(&env), Terminal::Windows);
}

#[test]
fn color_source_per_family() {
    assert_eq!(color_source(Terminal::Emacs), ColorSource::KnownUnsupported);
    assert_eq!(color_source(Terminal::Windows), ColorSource::NativeAttributeQuery);
    assert_eq!(color_source(Terminal::Tmux), ColorSource::EscapeSequenceProbe);
    assert_eq!(color_source(Terminal::Screen), ColorSource::EscapeSequenceProbe);
    assert_eq!(
        color_source(Terminal::XtermCompatible),
        ColorSource::EscapeSequenceProbe
    );
}

#[test]
fn fallback_index_fifteen_is_scaled_white() {
    let env = Env {
        colorfgbg: Some(String::from("0;15")),
        ..plain_env()
    };
    let got = from_env_colorfgbg(&env).unwrap();
    assert_eq!(
        got,
        Rgb {
            r: 65280,
            g: 65280,
            b: 65280
        }
    );
}

#[test]
fn fallback_out_of_range_index_fails() {
    let env = Env {
        colorfgbg: Some(String::from("0;99")),
        ..plain_env()
    };
    assert!(matches!(from_env_colorfgbg(&env), Err(Error::Parse(_))));
    let env = Env {
        colorfgbg: Some(String::from("0;16")),
        ..plain_env()
    };
    assert!(matches!(from_env_colorfgbg(&env), Err(Error::Parse(_))));
}

#[test]
fn fallback_absent_variable_is_unsupported() {
    assert!(matches!(from_env_colorfgbg(&plain_env()), Err(Error::Unsupported)));
}

#[test]
fn fallback_single_part_is_unsupported() {
    let env = Env {
        colorfgbg: Some(String::from("15")),
        ..plain_env()
    };
    assert!(matches!(from_env_colorfgbg(&env), Err(Error::Unsupported)));
}

#[test]
fn fallback_non_numeric_or_empty_index_fails() {
    let env = Env {
        colorfgbg: Some(String::from("0;xy")),
        ..plain_env()
    };
    assert!(matches!(from_env_colorfgbg(&env), Err(Error::Parse(_))));
    let env = Env {
        colorfgbg: Some(String::from("0;")),
        ..plain_env()
    };
    assert!(matches!(from_env_colorfgbg(&env), Err(Error::Parse(_))));
}

#[test]
fn fallback_table_entries() {
    let env = Env {
        colorfgbg: Some(String::from("15;0")),
        ..plain_env()
    };
    assert_eq!(from_env_colorfgbg(&env).unwrap(), Rgb { r: 0, g: 0, b: 0 });
    let env = Env {
        colorfgbg: Some(String::from("0;7")),
        ..plain_env()
    };
    assert_eq!(
        from_env_colorfgbg(&env).unwrap(),
        Rgb {
            r: 58624,
            g: 58624,
            b: 58624
        }
    );
    // The second part is the index; a third part is ignored.
    let env = Env {
        colorfgbg: Some(String::from("0;4;9")),
        ..plain_env()
    };
    assert_eq!(from_env_colorfgbg(&env).unwrap(), Rgb { r: 0, g: 0, b: 60928 });
    let env = Env {
        colorfgbg: Some(String::from("0;default;4")),
        ..plain_env()
    };
    assert!(matches!(from_env_colorfgbg(&env), Err(Error::Parse(_))));
}

#[test]
fn classify_black_is_dark_and_white_is_light() {
    assert_eq!(classify(Rgb { r: 0, g: 0, b: 0 }), Theme::Dark);
    assert_eq!(
        classify(Rgb {
            r: 65535,
            g: 65535,
            b: 65535
        }),
        Theme::Light
    );
}

#[test]
fn classify_boundary_luminance_is_dark() {
    // With equal channels the luminance equals the channel value exactly.
    assert_eq!(
        classify(Rgb {
            r: 32768,
            g: 32768,
            b: 32768
        }),
        Theme::Dark
    );
    assert_eq!(
        classify(Rgb {
            r: 32769,
            g: 32769,
            b: 32769
        }),
        Theme::Light
    );
}

#[test]
fn rgb_uses_fallback_when_family_cannot_answer() {
    let env = Env {
        inside_emacs: true,
        colorfgbg: Some(String::from("0;15")),
        ..plain_env()
    };
    let got = rgb(&env, 10).unwrap();
    assert_eq!(
        got,
        Rgb {
            r: 65280,
            g: 65280,
            b: 65280
        }
    );
}

#[test]
fn rgb_is_unsupported_for_emacs_without_fallback() {
    let env = Env {
        inside_emacs: true,
        ..plain_env()
    };
    assert!(matches!(rgb(&env, 10), Err(Error::Unsupported)));
}

#[test]
fn theme_classifies_the_fallback_color() {
    let env = Env {
        inside_emacs: true,
        colorfgbg: Some(String::from("0;15")),
        ..plain_env()
    };
    assert_eq!(theme(&env, 10).unwrap(), Theme::Light);
    let env = Env {
        inside_emacs: true,
        colorfgbg: Some(String::from("15;0")),
        ..plain_env()
    };
    assert_eq!(theme(&env, 10).unwrap(), Theme::Dark);
}

#[test]
fn latency_is_zero_for_families_that_never_probe() {
    let env = Env {
        inside_emacs: true,
        ..plain_env()
    };
    assert_eq!(latency(&env, 10).unwrap(), 0);
    let env = Env {
        native_console: true,
        ..plain_env()
    };
    assert_eq!(latency(&env, 10).unwrap(), 0);
}

#[test]
fn console_attributes_map_through_the_table() {
    assert_eq!(from_winapi(0), Rgb { r: 0, g: 0, b: 0 });
    // red | green | blue without intensity
    assert_eq!(
        from_winapi(0x70),
        Rgb {
            r: 49152,
            g: 49152,
            b: 49152
        }
    );
    // all four background bits
    assert_eq!(
        from_winapi(0xf0),
        Rgb {
            r: 65280,
            g: 65280,
            b: 65280
        }
    );
    // blue with intensity; foreground bits are ignored
    assert_eq!(from_winapi(0x9f), Rgb { r: 0, g: 0, b: 65280 });
}
