use iron_shell::parser::parse;
use iron_shell::session::{display_dir, record_result, submit_line, History, Tone};
use iron_shell::startup::{get_welcome_screen, uptime_text, SystemFacts};
use iron_shell::text::{decimal_string, starts_with, trim, trim_end};

fn s(x: &str) -> String {
    x.to_string()
}

#[test]
fn history_drops_empty_text() {
    let mut h = History::new();
    h.push_output(String::new(), Tone::Output);
    assert_eq!(h.len(), 0);
    h.push_output(s("hello"), Tone::Output);
    assert_eq!(h.len(), 1);
    assert_eq!(h.entry(0), (&s("hello"), Tone::Output));
}

#[test]
fn blank_line_is_dropped() {
    let mut h = History::new();
    assert_eq!(submit_line(&mut h, "  \t ", "~"), None);
    assert_eq!(h.len(), 0);
}

#[test]
fn submitted_line_is_trimmed_echoed_and_parsed() {
    let mut h = History::new();
    let p = submit_line(&mut h, "  ls -l  ", "~/src");
    assert_eq!(p, parse("ls -l"));
    assert_eq!(h.len(), 1);
    assert_eq!(h.entry(0), (&s("~/src \n❯ ls -l"), Tone::Prompt));
}

#[test]
fn line_without_command_is_echoed_only() {
    let mut h = History::new();
    assert_eq!(submit_line(&mut h, "|", "/"), None);
    assert_eq!(h.len(), 1);
}

#[test]
fn result_is_recorded_unless_empty() {
    let mut h = History::new();
    assert!(record_result(&mut h, (true, s("done"))));
    assert!(!record_result(&mut h, (false, String::new())));
    assert_eq!(h.len(), 1);
    assert_eq!(h.entry(0), (&s("done"), Tone::Output));
}

#[test]
fn home_folder_shows_as_tilde() {
    assert_eq!(display_dir("/home/ann/src", Some(s("/home/ann"))), "~/src");
    assert_eq!(display_dir("/home/ann", Some(s("/home/ann"))), "~");
    assert_eq!(display_dir("/tmp", Some(s("/home/ann"))), "/tmp");
    assert_eq!(display_dir("/tmp", None), "/tmp");
}

#[test]
fn trimming_follows_unicode_whitespace() {
    assert_eq!(trim(" \t\u{a0}a b\u{3000}\n"), "a b");
    assert_eq!(trim("   "), "");
    assert_eq!(trim_end("  a \n"), "  a");
    assert_eq!(trim(" x ").as_str(), " x ".trim());
}

#[test]
fn prefixes() {
    assert!(starts_with("/home/ann", "/home"));
    assert!(starts_with("abc", ""));
    assert!(!starts_with("ab", "abc"));
    assert!(!starts_with("abd", "abc"));
}

#[test]
fn decimal_numbers() {
    assert_eq!(decimal_string(0), "0");
    assert_eq!(decimal_string(7), "7");
    assert_eq!(decimal_string(1204), "1204");
    assert_eq!(decimal_string(u64::MAX), u64::MAX.to_string());
}

#[test]
fn uptime_in_hours_and_minutes() {
    assert_eq!(uptime_text(0), "0 hours, 0 mins");
    assert_eq!(uptime_text(3599), "0 hours, 59 mins");
    assert_eq!(uptime_text(90061), "25 hours, 1 mins");
}

#[test]
fn welcome_screen_layout() {
    let facts = SystemFacts {
        os_name: Some(s("Linux")),
        os_version: None,
        host_name: Some(s("box")),
        uptime_secs: 7260,
        cpu_brand: None,
        used_mem_gib: s("1.50"),
        total_mem_gib: s("8.00"),
        mem_percent: 18,
    };
    let screen = get_welcome_screen(&facts);
    let lines: Vec<&str> = screen.split('\n').collect();
    let logo = [
        "   ______          ",
        "  |  ____|         ",
        "  | |__            ",
        "  |  __|           ",
        "  | |              ",
        "  |_|              ",
        "                   ",
        "                   ",
    ];
    let info = [
        "OS      Linux ",
        "HOST    box",
        "UPTIME  2 hours, 1 mins",
        "SHELL   iron_shell 0.1.0",
        "",
        "SYSTEM STATUS",
        "CPU     Unknown CPU",
        "MEM     1.50 GiB / 8.00 GiB (18%)",
    ];
    assert_eq!(lines[0], "");
    for i in 0..8 {
        assert_eq!(lines[i + 1], format!("{}   {}", logo[i], info[i]));
    }
    assert_eq!(lines[9], "");
    assert!(lines[10].starts_with("  » \"This is our world now"));
    assert_eq!(lines[11], "  ● ● ● ● ● ● ●");
    assert!(screen.ends_with("\n\n"));
}
