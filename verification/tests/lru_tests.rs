use commons::in_app_dir_cache::{
    least_recently_used_files_above_limit, FilesWithSize, MiniPathModSize,
};

fn file(path: &str, modified: u128, size: u64) -> MiniPathModSize {
    MiniPathModSize { path: path.to_string(), modified, size }
}

const MIB: u64 = 1024 * 1024;

#[test]
fn test_lru_only_returns_based_on_size() {
    let overage = least_recently_used_files_above_limit(Vec::new(), 0);
    assert_eq!(overage.files.len(), 0);

    let overage = least_recently_used_files_above_limit(vec![file("a", 0, 0)], 0);
    assert_eq!(overage.files, vec!["a".to_string()]);

    let overage =
        least_recently_used_files_above_limit(vec![file("a", 0, 0)], u128::from(10 * MIB));
    assert_eq!(overage.files.len(), 0);
}

#[test]
fn test_lru_returns_older_files_first() {
    let files = vec![file("z_older", 0, 0), file("a_newer", 1, 0)];
    let overage = least_recently_used_files_above_limit(files, 0);
    assert_eq!(
        overage.files,
        vec!["z_older".to_string(), "a_newer".to_string()]
    );
}

#[test]
fn cleaning_stops_once_the_budget_is_reached() {
    // Total is 30; removing the two oldest files brings the remainder to 10,
    // the budget, and the loop stops before the remainder would drop under it.
    let files = vec![file("old", 0, 10), file("mid", 1, 10), file("new", 2, 10)];
    let overage = least_recently_used_files_above_limit(files, 10);
    assert_eq!(overage.bytes, 30);
    assert_eq!(overage.files, vec!["old".to_string(), "mid".to_string()]);
}

#[test]
fn under_the_budget_reports_nothing() {
    let files = vec![file("kept", 0, 5)];
    let overage = least_recently_used_files_above_limit(files, 6);
    assert_eq!(overage, FilesWithSize::default());
    assert_eq!(overage.bytes, 0);
}

#[test]
fn files_of_one_time_keep_their_order() {
    let files = vec![file("first", 7, 1), file("second", 7, 1), file("older", 2, 1)];
    let overage = least_recently_used_files_above_limit(files, 0);
    assert_eq!(
        overage.files,
        vec!["older".to_string(), "first".to_string(), "second".to_string()]
    );
}
