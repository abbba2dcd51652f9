use youtui::queue::Queue;
use youtui::search::SearchResult;

fn create_test_track(id: &str, title: &str) -> SearchResult {
    SearchResult {
        id: id.to_string(),
        title: title.to_string(),
        duration: "3:00".to_string(),
        channel: "Test".to_string(),
        views: "1K".to_string(),
    }
}

fn queue_of(n: usize) -> Queue {
    let mut queue = Queue::new();
    for i in 0..n {
        queue.push_back(create_test_track(&format!("{}", i + 1), &format!("Track {}", i + 1)));
    }
    queue
}

fn ids(queue: &Queue) -> Vec<String> {
    queue.iter().map(|t| t.id.clone()).collect()
}

#[test]
fn test_push_and_len() {
    let mut queue = Queue::new();
    assert_eq!(queue.len(), 0);

    queue.push_back(create_test_track("1", "Track 1"));
    assert_eq!(queue.len(), 1);

    queue.push_back(create_test_track("2", "Track 2"));
    assert_eq!(queue.len(), 2);
}

#[test]
fn test_pop_front() {
    let mut queue = Queue::new();
    queue.push_back(create_test_track("1", "Track 1"));
    queue.push_back(create_test_track("2", "Track 2"));

    let track = queue.pop_front().unwrap();
    assert_eq!(track.id, "1");
    assert_eq!(queue.len(), 1);

    let track = queue.pop_front().unwrap();
    assert_eq!(track.id, "2");
    assert_eq!(queue.len(), 0);
}

#[test]
fn test_remove() {
    let mut queue = Queue::new();
    queue.push_back(create_test_track("1", "Track 1"));
    queue.push_back(create_test_track("2", "Track 2"));
    queue.push_back(create_test_track("3", "Track 3"));

    let track = queue.remove(1).unwrap();
    assert_eq!(track.id, "2");
    assert_eq!(queue.len(), 2);
}

#[test]
fn test_clear() {
    let mut queue = Queue::new();
    queue.push_back(create_test_track("1", "Track 1"));
    queue.push_back(create_test_track("2", "Track 2"));

    queue.clear();
    assert_eq!(queue.len(), 0);
    assert!(queue.is_empty());
}

#[test]
fn pop_front_on_empty_queue_returns_nothing() {
    let mut queue = Queue::new();
    assert!(queue.pop_front().is_none());
    assert_eq!(queue.selected_index(), 0);
    assert_eq!(queue.len(), 0);
}

#[test]
fn pop_front_keeps_cursor_on_its_track() {
    let mut queue = queue_of(3);
    queue.select(2);
    let head = queue.pop_front().unwrap();
    assert_eq!(head.id, "1");
    assert_eq!(queue.selected_index(), 1);
    assert_eq!(queue.get(queue.selected_index()).unwrap().id, "3");
    queue.select(0);
    queue.pop_front();
    assert_eq!(queue.selected_index(), 0);
}

#[test]
fn remove_out_of_range_changes_nothing() {
    let mut queue = queue_of(3);
    queue.select(1);
    assert!(queue.remove(3).is_none());
    assert!(queue.remove(usize::MAX).is_none());
    assert_eq!(ids(&queue), vec!["1", "2", "3"]);
    assert_eq!(queue.selected_index(), 1);
}

#[test]
fn remove_before_cursor_moves_it_down_by_one() {
    let mut queue = queue_of(4);
    queue.select(2);
    assert_eq!(queue.remove(0).unwrap().id, "1");
    assert_eq!(queue.selected_index(), 1);
    assert_eq!(ids(&queue), vec!["2", "3", "4"]);
}

#[test]
fn remove_after_cursor_leaves_it() {
    let mut queue = queue_of(4);
    queue.select(1);
    assert_eq!(queue.remove(3).unwrap().id, "4");
    assert_eq!(queue.selected_index(), 1);
}

#[test]
fn remove_last_track_under_cursor_keeps_cursor_in_range() {
    let mut queue = queue_of(3);
    queue.select(2);
    assert_eq!(queue.remove(2).unwrap().id, "3");
    assert_eq!(queue.selected_index(), 1);
    queue.remove(1);
    assert_eq!(queue.selected_index(), 0);
    queue.remove(0);
    assert_eq!(queue.selected_index(), 0);
    assert!(queue.is_empty());
}

#[test]
fn move_to_front_puts_track_at_head() {
    let mut queue = queue_of(4);
    queue.select(3);
    queue.move_to_front(2);
    assert_eq!(ids(&queue), vec!["3", "1", "2", "4"]);
    assert_eq!(queue.selected_index(), 0);
}

#[test]
fn move_to_front_of_head_resets_cursor() {
    let mut queue = queue_of(3);
    queue.select(2);
    queue.move_to_front(0);
    assert_eq!(ids(&queue), vec!["1", "2", "3"]);
    assert_eq!(queue.selected_index(), 0);
}

#[test]
fn move_to_front_out_of_range_changes_nothing() {
    let mut queue = queue_of(3);
    queue.select(2);
    queue.move_to_front(3);
    assert_eq!(ids(&queue), vec!["1", "2", "3"]);
    assert_eq!(queue.selected_index(), 2);
}

#[test]
fn select_past_the_end_lands_on_last_track() {
    let mut queue = queue_of(2);
    queue.select(7);
    assert_eq!(queue.selected_index(), 1);
    let mut empty = Queue::new();
    empty.select(3);
    assert_eq!(empty.selected_index(), 0);
}

#[test]
fn get_returns_track_or_nothing() {
    let queue = queue_of(2);
    assert_eq!(queue.get(1).unwrap().title, "Track 2");
    assert!(queue.get(2).is_none());
}

#[test]
fn queue_holds_copies_of_results() {
    let track = create_test_track("a", "A");
    let mut queue = Queue::new();
    queue.push_back(track.clone());
    queue.push_back(track.clone());
    assert_eq!(queue.len(), 2);
    assert_eq!(track.id, "a");
}
