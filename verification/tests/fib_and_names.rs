use tokio_browser::decimal::to_decimal;
use tokio_browser::names::{
    hello_contents, hello_path, ops_base_path, ops_dir_path, ops_file_content, ops_file_path,
    race_content, race_file_path, race_padding, rw_path, shared_content, shared_content_prefix,
    shared_file_path, something, stress_dir, task_base_path, task_content, task_file_path,
};
use tokio_browser::{checked_fibonacci, fibonacci};

#[test]
fn fibonacci_small_values() {
    let expected: [u64; 11] = [0, 1, 1, 2, 3, 5, 8, 13, 21, 34, 55];
    for (n, want) in expected.iter().enumerate() {
        assert_eq!(fibonacci(n as u64), *want);
    }
}

#[test]
fn fibonacci_blocking_task_inputs() {
    assert_eq!(fibonacci(10), 55);
    assert_eq!(fibonacci(20), 6765);
    assert_eq!(fibonacci(30), 832040);
}

#[test]
fn fibonacci_forty() {
    assert_eq!(fibonacci(40), 102334155);
}

#[test]
fn checked_fibonacci_agrees_and_stops_at_overflow() {
    for n in 0..=30u64 {
        assert_eq!(checked_fibonacci(n), Some(fibonacci(n)));
    }
    assert_eq!(checked_fibonacci(40), Some(102334155));
    assert_eq!(checked_fibonacci(93), Some(12200160415121876738));
    assert_eq!(checked_fibonacci(94), None);
    assert_eq!(checked_fibonacci(u64::MAX), None);
}

#[test]
fn decimal_renderings() {
    assert_eq!(to_decimal(0), "0");
    assert_eq!(to_decimal(7), "7");
    assert_eq!(to_decimal(10), "10");
    assert_eq!(to_decimal(12345), "12345");
    assert_eq!(to_decimal(usize::MAX), usize::MAX.to_string());
    for n in [1usize, 9, 99, 100, 1000, 65535, 1 << 40] {
        assert_eq!(to_decimal(n), n.to_string());
    }
}

#[test]
fn fixed_names() {
    assert_eq!(hello_path(), "hello");
    assert_eq!(hello_contents(), "world d d d d");
    assert_eq!(something(), " s o m e t h i n g ");
    assert_eq!(stress_dir(), "/stress");
    assert_eq!(shared_file_path(), "/stress/shared_file.txt");
    assert_eq!(shared_content_prefix(), "shared_content_task_");
    assert_eq!(ops_file_content(), "content");
    assert_eq!(race_file_path(), "/stress/race_file.txt");
}

#[test]
fn read_back_paths() {
    assert_eq!(rw_path("/1/1"), "/1/1/rw");
    assert_eq!(rw_path("/2/2"), "/2/2/rw");
    assert_eq!(rw_path(""), "/rw");
}

#[test]
fn independent_task_names() {
    assert_eq!(task_base_path(0), "/stress/task_0");
    assert_eq!(task_base_path(49), "/stress/task_49");
    assert_eq!(task_file_path(3, 7), "/stress/task_3/file_7.txt");
    assert_eq!(task_file_path(12, 0), "/stress/task_12/file_0.txt");
    assert_eq!(task_content(3, 7), "content_task_3_iter_7");
    assert_eq!(task_content(0, 105), "content_task_0_iter_105");
}

#[test]
fn independent_task_names_are_distinct() {
    let mut seen = std::collections::HashSet::new();
    for id in 0..60usize {
        for i in 0..15usize {
            assert!(seen.insert(task_file_path(id, i)));
        }
    }
    // "1" + "11" and "11" + "1" must not meet
    assert_ne!(task_file_path(1, 11), task_file_path(11, 1));
    assert_ne!(task_content(1, 11), task_content(11, 1));
}

#[test]
fn shared_task_names() {
    assert_eq!(shared_content(4, 2), "shared_content_task_4_iter_2");
    assert!(shared_content(40, 9).starts_with(shared_content_prefix()));
}

#[test]
fn fs_ops_task_names() {
    assert_eq!(ops_base_path(5), "/stress/ops_task_5");
    assert_eq!(ops_dir_path(5, 2), "/stress/ops_task_5/dir_2");
    assert_eq!(ops_file_path(5, 2), "/stress/ops_task_5/dir_2/file.txt");
}

#[test]
fn race_task_names() {
    let padding = race_padding();
    assert_eq!(padding.len(), 1024 * 10);
    assert!(padding.chars().all(|c| c == 'a'));
    let c = race_content(2, 3, &padding);
    assert_eq!(c, format!("race_content_2_3_{}", "a".repeat(1024 * 10)));
}

#[test]
fn race_content_with_other_padding() {
    assert_eq!(race_content(1, 2, "xy"), "race_content_1_2_xy");
    assert_eq!(race_content(10, 0, ""), "race_content_10_0_");
}
