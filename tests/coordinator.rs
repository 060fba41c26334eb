use indicatif::ProgressStyle;
use log4rs::encode::pattern::PatternEncoder;
use proglog::{
    BarBook, Display,
    console_pattern, console_threshold, logall, EmitError, Emission, ProgLog, ProgressAppender,
    Severity, StringWriter,
};

fn emit_all(appender: &mut ProgressAppender, msg: &str) {
    for (_, line) in logall(msg) {
        if let Emission::Direct(text) = appender.emit(&line) {
            println!("{}", text);
        }
    }
}

#[test]
fn test_example() {
    let (mut plog, mut progress_appender) = ProgLog::builder()
        .style(
            ProgressStyle::default_bar()
                .template("{elapsed_precise} [{wide_bar}] {pos:>7}/{len:7} {eta} {msg:40}")
                .progress_chars("=> "),
        )
        .encoder(Box::new(PatternEncoder::new("{h({l})} {f}:{L} - {m}\n")))
        .build();

    for j in 0..2 {
        let pb = plog.add_with_length(128);
        emit_all(&mut progress_appender, &format!("Loop: {}", j));
        for i in 0..128 {
            pb.set_message(&format!("item #{}", i + 1));
            pb.inc(1);
            if i % 40 == 0 {
                emit_all(&mut progress_appender, &format!("thread 1 {}", i));
            }
        }
        pb.finish_with_message("done");

        let pb = plog.add_with_length(128);
        for _ in 0..2 {
            pb.set_position(0);
            for i in 0..128 {
                pb.set_message(&format!("item #{}", i + 1));
                pb.inc(1);
                if i % 80 == 0 {
                    emit_all(&mut progress_appender, &format!("thread 2 {}", i));
                }
            }
        }
        pb.finish_with_message("done");

        let pb = plog.add_with_length(1024);
        for i in 0..124 {
            pb.set_message(&format!("item #{}", i + 1));
            pb.inc(1);
            if i % 100 == 0 {
                emit_all(&mut progress_appender, &format!("thread 3 {}", i));
            }
        }
        pb.finish_with_message("done");

        plog.join().unwrap();

        emit_all(&mut progress_appender, "Iteration done!");

        plog.join_and_clear().unwrap();
    }
}

#[test]
fn second_session_starts_from_a_fresh_log_slot() {
    let (mut plog, _appender) = ProgLog::builder().build();
    let pb = plog.add_with_length(128);
    assert_eq!(pb.position(), 0);
    assert_eq!(pb.length(), 128);
    pb.set_position(128);
    pb.finish();
    assert!(plog.join().is_ok());

    let pb = plog.add_with_length(128);
    assert_eq!(pb.position(), 0);
    assert_eq!(pb.length(), 128);
    pb.finish();
    assert!(plog.join_and_clear().is_ok());
}

#[test]
fn join_waits_for_two_bars() {
    let (mut plog, _appender) = ProgLog::builder().build();
    let first = plog.add_with_length(10);
    let second = plog.add_with_length(20);
    assert_eq!(first.length(), 10);
    assert_eq!(second.length(), 20);
    first.inc(4);
    second.inc(7);
    assert_eq!(first.position(), 4);
    assert_eq!(second.position(), 7);
    first.finish();
    drop(second);
    assert!(plog.join().is_ok());
}

#[test]
fn first_bar_reuses_the_log_slot_and_later_bars_are_new() {
    let (mut plog, appender) = ProgLog::builder().build();
    let first = plog.add_with_length(5);
    let second = plog.add_with_length(6);
    first.set_position(3);
    assert_eq!(first.position(), 3);
    assert_eq!(second.position(), 0);
    first.finish();
    second.finish();
    assert!(plog.join().is_ok());
    drop(appender);

    let again = plog.add_with_length(9);
    assert_eq!(again.position(), 0);
    assert_eq!(again.length(), 9);
    again.finish();
    assert!(plog.join().is_ok());
}

#[test]
fn join_with_no_bars_returns() {
    let (mut plog, _appender) = ProgLog::builder().build();
    assert!(plog.join().is_ok());
    assert!(plog.join_and_clear().is_ok());
    let pb = plog.add();
    assert_eq!(pb.length(), 1);
    pb.finish();
    assert!(plog.join().is_ok());
}

#[test]
fn length_zero_is_accepted() {
    let (mut plog, _appender) = ProgLog::builder().build();
    let pb = plog.add_with_length(0);
    let other = plog.add_with_length(0);
    assert_eq!(pb.length(), 0);
    assert_eq!(other.length(), 0);
    pb.finish();
    other.finish();
    assert!(plog.join_and_clear().is_ok());
}

#[test]
fn non_interactive_sink_hands_the_line_back() {
    let mut appender = ProgressAppender::builder().build_for(false);
    assert!(!appender.is_interactive());
    match appender.emit("INFO - hello") {
        Emission::Direct(text) => assert_eq!(text, "INFO - hello"),
        Emission::AboveBars(_) => panic!("printed through the bar"),
    }
}

#[test]
fn interactive_sink_prints_above_the_bars() {
    let mut appender = ProgressAppender::builder().build_for(true);
    assert!(appender.is_interactive());
    match appender.emit("WARN - careful") {
        Emission::AboveBars(line) => {
            assert!(line == "\x1b[2KWARN - careful" || line == "WARN - careful");
            assert!(line.ends_with("WARN - careful"));
        }
        Emission::Direct(_) => panic!("written directly"),
    }
}

#[test]
fn route_decides_without_printing() {
    let quiet = ProgressAppender::builder().build_for(false);
    assert!(matches!(quiet.route("a"), Emission::Direct(ref t) if t == "a"));
    let loud = ProgressAppender::builder().build_for(true);
    assert!(matches!(loud.route("a"), Emission::AboveBars(ref t) if t == "\x1b[2Ka" || t == "a"));
}

#[test]
fn string_writer_collects_text() {
    let mut w = StringWriter::new();
    assert_eq!(w.buffer, "");
    assert_eq!(w.write("héllo ".as_bytes()), Ok(7));
    assert_eq!(w.write(b"world"), Ok(5));
    assert_eq!(w.buffer, "héllo world");
    assert_eq!(w.flush(), Ok(()));
    assert_eq!(w.buffer, "héllo world");
}

#[test]
fn string_writer_refuses_invalid_utf8() {
    let mut w = StringWriter::new();
    assert_eq!(w.write(b"ok"), Ok(2));
    assert_eq!(w.write(&[0xff, 0xfe]), Err(EmitError::InvalidEncoding));
    assert_eq!(w.write(&[0xe2, 0x82]), Err(EmitError::InvalidEncoding));
    assert_eq!(w.buffer, "ok");
    assert_eq!(w.write(b""), Ok(0));
    assert_eq!(w.buffer, "ok");
}

#[test]
fn verbosity_maps_to_threshold() {
    assert_eq!(console_threshold(-3), Severity::Error);
    assert_eq!(console_threshold(0), Severity::Error);
    assert_eq!(console_threshold(1), Severity::Warn);
    assert_eq!(console_threshold(2), Severity::Info);
    assert_eq!(console_threshold(3), Severity::Debug);
    assert_eq!(console_threshold(4), Severity::Trace);
    assert_eq!(console_threshold(i32::MAX), Severity::Trace);
}

#[test]
fn pattern_follows_line_numbers() {
    assert_eq!(console_pattern(true), "{h({l})} {f}:{L} - {m}\n");
    assert_eq!(console_pattern(false), "{h({l})} - {m}\n");
}

#[test]
fn logall_gives_four_records() {
    let records = logall("Loop: 1");
    assert_eq!(
        records,
        vec![
            (Severity::Error, String::from("error Loop: 1")),
            (Severity::Warn, String::from("warn Loop: 1")),
            (Severity::Info, String::from("info Loop: 1")),
            (Severity::Debug, String::from("debug Loop: 1")),
        ]
    );
}

#[test]
fn display_registers_and_drains_its_rows() {
    let mut bars = BarBook::new();
    let mut display = Display::new();
    let first = bars.new_bar(3);
    let same = display.add(first.clone());
    assert_eq!(same.length(), 3);
    let second = display.add(bars.new_bar(4));
    assert_eq!(second.length(), 4);
    display.set_move_cursor(true);
    first.finish();
    second.finish();
    assert!(display.join().is_ok());

    let mut other = Display::new();
    let bar = other.add(bars.new_bar(2));
    bar.finish();
    assert!(other.join_and_clear().is_ok());
}

#[test]
fn bar_book_changes_bars() {
    let mut bars = BarBook::new();
    let pb = bars.new_bar(10);
    assert_eq!(pb.position(), 0);
    assert_eq!(pb.length(), 10);
    bars.set_position(&pb, 4);
    assert_eq!(pb.position(), 4);
    bars.set_length(&pb, 20);
    assert_eq!(pb.length(), 20);
    bars.reset(&pb);
    assert_eq!(pb.position(), 0);
    assert!(!pb.is_finished());
    bars.finish(&pb);
    assert!(pb.is_finished());
    assert_eq!(pb.position(), 20);
}

#[test]
fn new_bar_of_length_zero() {
    let mut bars = BarBook::new();
    let pb = bars.new_bar(0);
    assert_eq!(pb.length(), 0);
}
