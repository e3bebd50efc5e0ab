use std::io::Write;
use std::sync::{Arc, Mutex};

use log::{Level, LevelFilter, Log, Record};
use simple_logger::label::{level, pad_label, rank_of_filter, rank_of_level};
use simple_logger::writer::{Route, Sink, Writer};
use simple_logger::{threshold_after, Logger};

const ALL: [Level; 5] = [Level::Error, Level::Warn, Level::Info, Level::Debug, Level::Trace];

struct Shared(Arc<Mutex<Vec<u8>>>);

impl Write for Shared {
    fn write(&mut self, buf: &[u8]) -> std::io::Result<usize> {
        self.0.lock().unwrap().extend_from_slice(buf);
        Ok(buf.len())
    }

    fn flush(&mut self) -> std::io::Result<()> {
        Ok(())
    }
}

fn shared_writer() -> (Writer, Arc<Mutex<Vec<u8>>>) {
    let buf = Arc::new(Mutex::new(Vec::new()));
    let sink = Sink { inner: Box::new(Mutex::new(Shared(buf.clone()))) };
    (Writer::Other(sink), buf)
}

fn contents(buf: &Arc<Mutex<Vec<u8>>>) -> String {
    String::from_utf8(buf.lock().unwrap().clone()).unwrap()
}

#[test]
fn default_logger_is_info_on_plain_stdout() {
    let lg = Logger::new();
    assert_eq!(lg.max_level(), LevelFilter::Info);
    assert!(matches!(lg.writer(), Writer::Stdout(false)));
}

#[test]
fn default_writer_is_plain_stdout() {
    assert!(matches!(Writer::default(), Writer::Stdout(false)));
}

#[test]
fn with_level_keeps_writer() {
    let lg = Logger::new().with_writer(Writer::Stderr(true)).with_level(LevelFilter::Trace);
    assert_eq!(lg.max_level(), LevelFilter::Trace);
    assert!(matches!(lg.writer(), Writer::Stderr(true)));
}

#[test]
fn with_writer_keeps_level() {
    let lg = Logger::new().with_level(LevelFilter::Error).with_writer(Writer::Stdout(true));
    assert_eq!(lg.max_level(), LevelFilter::Error);
    assert!(matches!(lg.writer(), Writer::Stdout(true)));
}

#[test]
fn threshold_lets_through_more_important_levels() {
    for (i, min) in ALL.iter().enumerate() {
        let lg = Logger::new().with_level(min.to_level_filter());
        for (j, l) in ALL.iter().enumerate() {
            assert_eq!(lg.enabled_for(*l), j <= i);
            assert_eq!(lg.render(*l).is_some(), j <= i);
        }
    }
}

#[test]
fn off_lets_nothing_through() {
    let lg = Logger::new().with_level(LevelFilter::Off);
    for l in ALL {
        assert!(!lg.enabled_for(l));
        assert_eq!(lg.render(l), None);
    }
}

#[test]
fn ranks_follow_importance() {
    assert_eq!(rank_of_level(Level::Error), 1);
    assert_eq!(rank_of_level(Level::Trace), 5);
    assert_eq!(rank_of_filter(LevelFilter::Off), 0);
    assert_eq!(rank_of_filter(LevelFilter::Info), 3);
}

#[test]
fn plain_labels_are_five_wide() {
    assert_eq!(level(false, Level::Error), "ERROR");
    assert_eq!(level(false, Level::Warn), "WARN ");
    assert_eq!(level(false, Level::Info), "INFO ");
    assert_eq!(level(false, Level::Debug), "DEBUG");
    assert_eq!(level(false, Level::Trace), "TRACE");
}

#[test]
fn pad_label_pads_short_names_only() {
    assert_eq!(pad_label(""), "     ");
    assert_eq!(pad_label("AB"), "AB   ");
    assert_eq!(pad_label("LONGER"), "LONGER");
}

#[test]
fn coloured_labels_when_colour_is_forced() {
    colored::control::set_override(true);
    assert_eq!(level(true, Level::Error), "\x1b[31mERROR\x1b[0m");
    assert_eq!(level(true, Level::Warn), "\x1b[33mWARN \x1b[0m");
    assert_eq!(level(true, Level::Info), "\x1b[36mINFO \x1b[0m");
    assert_eq!(level(true, Level::Debug), "\x1b[35mDEBUG\x1b[0m");
    assert_eq!(level(true, Level::Trace), "TRACE");
    assert_eq!(level(false, Level::Error), "ERROR");
}

#[test]
fn warn_logger_on_coloured_stderr() {
    colored::control::set_override(true);
    let lg = Logger::new().with_level(LevelFilter::Warn).with_writer(Writer::Stderr(true));
    assert_eq!(lg.render(Level::Info), None);
    assert_eq!(lg.render(Level::Error), Some("\x1b[31mERROR\x1b[0m".to_string()));
}

#[test]
fn sink_gets_uncoloured_lines() {
    colored::control::set_override(true);
    let (w, buf) = shared_writer();
    let lg = Logger::new().with_level(LevelFilter::Warn).with_writer(w);
    lg.emit(Level::Info);
    assert_eq!(contents(&buf), "");
    lg.emit(Level::Error);
    lg.emit(Level::Warn);
    assert_eq!(contents(&buf), "ERROR\nWARN \n");
}

#[test]
fn sink_gets_one_line_per_record() {
    let (w, buf) = shared_writer();
    let lg = Logger::new().with_level(LevelFilter::Trace).with_writer(w);
    for _ in 0..25 {
        lg.emit(Level::Debug);
    }
    let text = contents(&buf);
    assert_eq!(text.lines().count(), 25);
    assert!(text.lines().all(|l| l == "DEBUG"));
}

#[test]
fn only_terminal_writers_ask_for_colour() {
    assert!(Writer::Stdout(true).is_colored());
    assert!(!Writer::Stderr(false).is_colored());
    let (w, _buf) = shared_writer();
    assert!(!w.is_colored());
}

#[test]
fn dispatch_picks_the_writer_destination() {
    let lg = Logger::new().with_writer(Writer::Stderr(false));
    let (route, label) = lg.dispatch(Level::Warn).unwrap();
    assert!(matches!(route, Route::Stderr));
    assert_eq!(label, "WARN ");
    assert!(lg.dispatch(Level::Debug).is_none());
    let out = Logger::new();
    assert!(matches!(out.dispatch(Level::Info), Some((Route::Stdout, _))));
    let (w, _buf) = shared_writer();
    let other = Logger::new().with_writer(w);
    let (route, label) = other.dispatch(Level::Error).unwrap();
    assert!(matches!(route, Route::Other(_)));
    assert_eq!(label, "ERROR");
}

#[test]
fn writer_kind_names() {
    assert_eq!(Writer::Stdout(true).kind_name(), "Stdout");
    assert_eq!(Writer::Stderr(false).kind_name(), "Stderr");
    let (w, _buf) = shared_writer();
    assert_eq!(w.kind_name(), "Other");
}

#[test]
fn second_install_fails_and_first_stays() {
    let (w, buf) = shared_writer();
    let first = Logger::new().with_level(LevelFilter::Warn).with_writer(w);
    assert!(first.init().is_ok());
    assert_eq!(log::max_level(), LevelFilter::Warn);
    let (w2, buf2) = shared_writer();
    let second = Logger::new().with_level(LevelFilter::Trace).with_writer(w2);
    assert!(second.init().is_err());
    assert_eq!(log::max_level(), LevelFilter::Warn);
    assert!(log::logger().enabled(&log::Metadata::builder().level(Level::Warn).build()));
    assert!(!log::logger().enabled(&log::Metadata::builder().level(Level::Info).build()));
    log::logger().log(&Record::builder().level(Level::Error).build());
    log::logger().log(&Record::builder().level(Level::Info).build());
    assert_eq!(contents(&buf), "ERROR\n");
    assert_eq!(contents(&buf2), "");
}

#[test]
fn threshold_is_set_only_after_a_successful_install() {
    assert_eq!(threshold_after(LevelFilter::Warn, &Ok(())), Some(LevelFilter::Warn));
    assert!(Logger::new().with_level(LevelFilter::Debug).init().is_ok());
    assert_eq!(log::max_level(), LevelFilter::Debug);
    let failed = log::set_boxed_logger(Box::new(Logger::new()));
    assert!(failed.is_err());
    assert_eq!(threshold_after(LevelFilter::Trace, &failed), None);
    assert_eq!(log::max_level(), LevelFilter::Debug);
}
