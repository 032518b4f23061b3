use error_traits::LogErr;
use std::sync::{Arc, Mutex};

struct Capture {
    records: Arc<Mutex<Vec<(log::Level, String, String)>>>,
}

impl log::Log for Capture {
    fn enabled(&self, _metadata: &log::Metadata) -> bool {
        true
    }

    fn log(&self, record: &log::Record) {
        self.records.lock().unwrap().push((
            record.level(),
            record.target().to_owned(),
            record.args().to_string(),
        ));
    }

    fn flush(&self) {}
}

#[test]
fn log_err_sends_one_error_record_per_failure() {
    let records = Arc::new(Mutex::new(Vec::new()));
    log::set_boxed_logger(Box::new(Capture { records: records.clone() })).unwrap();

    // Until the application raises the level filter, nothing is recorded.
    let quiet: Result<u8, String> = Err("unheard".to_owned());
    assert_eq!(quiet.clone().log_err("early: "), quiet);
    assert!(records.lock().unwrap().is_empty());

    log::set_max_level(log::LevelFilter::Trace);

    let fine: Result<u8, String> = Ok(3);
    assert_eq!(fine.clone().log_err("some_log_prefix: "), fine);
    assert!(records.lock().unwrap().is_empty());

    let parsed = "foo".parse::<u16>();
    let rendered = parsed.clone().unwrap_err().to_string();
    assert_eq!(parsed.clone().log_err("some_log_prefix: error "), parsed);
    {
        let seen = records.lock().unwrap();
        assert_eq!(seen.len(), 1);
        assert_eq!(seen[0].0, log::Level::Error);
        assert_eq!(seen[0].1, "error_traits::log_err");
        assert_eq!(seen[0].2, format!("some_log_prefix: error {rendered}"));
    }

    let bare: Result<(), i32> = Err(-4);
    assert_eq!(bare.log_err(""), Err(-4));
    let braces: Result<(), &str> = Err("{} {x}");
    assert_eq!(braces.log_err("{}"), Err("{} {x}"));
    {
        let seen = records.lock().unwrap();
        assert_eq!(seen.len(), 3);
        assert_eq!(seen[1].2, "-4");
        assert_eq!(seen[2].2, "{}{} {x}");
    }

    log::set_max_level(log::LevelFilter::Off);
    let late: Result<u8, String> = Err("unheard".to_owned());
    assert_eq!(late.clone().log_err("late: "), late);
    assert_eq!(records.lock().unwrap().len(), 3);
}
