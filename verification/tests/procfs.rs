use movie_service::procfs::{get_thread_count, status_path};

fn by_the_standard_library(contents: &str) -> Option<i64> {
    for line in contents.lines() {
        if line.starts_with("Threads:") {
            if let Some(thread_count) = line.split_whitespace().nth(1) {
                return thread_count.parse::<i64>().ok();
            }
        }
    }
    None
}

const STATUS: &str = "Name:\tmovie-client\nUmask:\t0022\nState:\tS (sleeping)\nTgid:\t4242\nPid:\t4242\nVmRSS:\t   10240 kB\nThreads:\t17\nSigQ:\t0/63432\nvoluntary_ctxt_switches:\t150\n";

#[test]
fn thread_count_is_read_from_a_status_file() {
    assert_eq!(get_thread_count(STATUS), Some(17));
}

#[test]
fn thread_count_of_a_text_without_the_line_is_none() {
    assert_eq!(get_thread_count(""), None);
    assert_eq!(get_thread_count("Name:\tx\nPid:\t1\n"), None);
    assert_eq!(get_thread_count("threads:\t4\n"), None);
    assert_eq!(get_thread_count(" Threads:\t4\n"), None);
}

#[test]
fn thread_count_takes_the_second_word() {
    assert_eq!(get_thread_count("Threads: 5"), Some(5));
    assert_eq!(get_thread_count("Threads:   5   6\n"), Some(5));
    assert_eq!(get_thread_count("Threads:\t+8\n"), Some(8));
    assert_eq!(get_thread_count("Threads:\t-3\n"), Some(-3));
    assert_eq!(get_thread_count("Threads:\t007\r\n"), Some(7));
    assert_eq!(get_thread_count("Threads:x 9\n"), Some(9));
    assert_eq!(get_thread_count("Threads:\u{a0}12\n"), Some(12));
}

#[test]
fn thread_count_skips_a_line_without_a_second_word() {
    assert_eq!(get_thread_count("Threads:5\nThreads: 6\n"), Some(6));
    assert_eq!(get_thread_count("Threads:\nThreads:\t2"), Some(2));
    assert_eq!(get_thread_count("Threads:   \r\n"), None);
}

#[test]
fn thread_count_stops_at_the_first_line_with_a_second_word() {
    assert_eq!(get_thread_count("Threads: many\nThreads: 6\n"), None);
    assert_eq!(get_thread_count("Threads: 1\nThreads: 2\n"), Some(1));
    assert_eq!(get_thread_count("Threads: 1.5\n"), None);
    assert_eq!(get_thread_count("Threads: +\n"), None);
    assert_eq!(get_thread_count("Threads: -\n"), None);
    assert_eq!(get_thread_count("Threads: --1\n"), None);
    assert_eq!(get_thread_count("Threads: 1_000\n"), None);
}

#[test]
fn thread_count_keeps_to_the_range_of_the_number() {
    assert_eq!(get_thread_count("Threads: 9223372036854775807"), Some(i64::MAX));
    assert_eq!(get_thread_count("Threads: 9223372036854775808"), None);
    assert_eq!(get_thread_count("Threads: -9223372036854775808"), Some(i64::MIN));
    assert_eq!(get_thread_count("Threads: -9223372036854775809"), None);
    assert_eq!(get_thread_count("Threads: 00000000000000000000000000000000000012"), Some(12));
    assert_eq!(get_thread_count("Threads: 99999999999999999999999999999999999999999999"), None);
}

#[test]
fn thread_count_agrees_with_the_standard_library() {
    let pieces = [
        "Threads:", "Threads: ", "Threads:\t", "threads: 3", "7", " 42", "-1", "+5", "x", "\n", "\r\n",
        "\r", " ", "\t", "\u{2003}", "\u{85}", "\u{3000}9", "Name:\tn", "Th", "0x10", "\u{e9}", "",
        "9223372036854775808", "\u{b}4", "\u{c}", "\u{1680}", "\u{200b}",
    ];
    for a in pieces {
        for b in pieces {
            for c in pieces {
                for text in [format!("{}{}{}", a, b, c), format!("{}\n{}{}\nThreads: 3", a, b, c)] {
                    assert_eq!(get_thread_count(&text), by_the_standard_library(&text), "{:?}", text);
                }
            }
        }
    }
}

#[test]
fn status_path_names_the_file_of_the_process() {
    assert_eq!(status_path(1), "/proc/1/status");
    assert_eq!(status_path(4242), "/proc/4242/status");
    assert_eq!(status_path(0), "/proc/0/status");
}
