use yta_cli::media::Video;
use yta_cli::media::clean_title;
use yta_cli::media::mp3_filename;
use yta_cli::media::search_query_arg;
use yta_cli::media::select_search_result;
use yta_cli::media::video_ids;
use yta_cli::media::watch_url;

#[test]
fn filenames_are_trimmed_and_sanitized() {
    // Trailing whitespace goes, and so does the path separator.
    assert_eq!(mp3_filename("  My/Song  "), "MySong.mp3");
    assert_eq!(mp3_filename("Quiet Night"), "Quiet Night.mp3");
    assert_eq!(clean_title(" A: B? "), "A B");
}

#[test]
fn watch_urls() {
    assert_eq!(watch_url("abc123"), "https://www.youtube.com/watch?v=abc123");
    assert_eq!(watch_url(""), "https://www.youtube.com/watch?v=");
}

#[test]
fn search_arguments() {
    assert_eq!(search_query_arg(3, "soft jazz"), "ytsearch3:soft jazz");
    assert_eq!(search_query_arg(1, ""), "ytsearch1:");
}

#[test]
fn search_result_selection_is_one_based() {
    assert_eq!(select_search_result(4, 1), Some(0));
    assert_eq!(select_search_result(4, 4), Some(3));
    assert_eq!(select_search_result(4, 5), None);
    // Index zero is tolerated and selects the first result.
    assert_eq!(select_search_result(4, 0), Some(0));
    assert_eq!(select_search_result(0, 1), None);
}

#[test]
fn video_ids_keep_result_order() {
    let results = vec![
        Video { title: "first".to_string(), id: "id1".to_string() },
        Video { title: "second".to_string(), id: "id2".to_string() },
    ];
    assert_eq!(video_ids(&results), vec!["id1".to_string(), "id2".to_string()]);
    assert!(video_ids(&Vec::new()).is_empty());
}
