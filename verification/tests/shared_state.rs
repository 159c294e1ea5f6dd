use line_logger::{Global, Local, MAX_GLOBAL_LINES};

fn numbered(from: usize, to: usize) -> Vec<String> {
    (from..to).map(|i| format!("line {}", i)).collect()
}

#[test]
fn threshold_is_thirty_two() {
    assert_eq!(MAX_GLOBAL_LINES, 32);
}

#[test]
fn push_waits_below_the_threshold() {
    let mut global = Global::default();
    let window = global.window();
    let mut out: Vec<String> = Vec::new();
    for line in numbered(0, 31) {
        global.push(line, &window, &mut out);
        assert!(out.is_empty());
    }
    global.flush(&window, &mut out);
    assert_eq!(out, numbered(0, 31));
}

#[test]
fn thirty_second_push_drains_the_queue() {
    let mut global = Global::default();
    let window = global.window();
    let mut out: Vec<String> = Vec::new();
    for line in numbered(0, 32) {
        global.push(line, &window, &mut out);
    }
    assert_eq!(out, numbered(0, 32));
    global.push(String::from("line 32"), &window, &mut out);
    assert_eq!(out.len(), 32);
    global.flush(&window, &mut out);
    assert_eq!(out, numbered(0, 33));
}

#[test]
fn every_thirty_second_push_drains() {
    let mut global = Global::default();
    let window = global.window();
    let mut out: Vec<String> = Vec::new();
    for (i, line) in numbered(0, 100).into_iter().enumerate() {
        global.push(line, &window, &mut out);
        assert_eq!(out.len(), (i + 1) / 32 * 32);
    }
    assert_eq!(out, numbered(0, 96));
}

#[test]
fn explicit_flush_does_not_move_the_counter() {
    let mut global = Global::default();
    let window = global.window();
    let mut out: Vec<String> = Vec::new();
    for line in numbered(0, 10) {
        global.push(line, &window, &mut out);
    }
    global.flush(&window, &mut out);
    assert_eq!(out.len(), 10);
    for line in numbered(10, 31) {
        global.push(line, &window, &mut out);
    }
    assert_eq!(out.len(), 10);
    global.push(String::from("line 31"), &window, &mut out);
    assert_eq!(out, numbered(0, 32));
}

#[test]
fn flush_of_an_empty_queue_writes_nothing() {
    let mut global = Global::default();
    let window = global.window();
    let mut out: Vec<String> = vec![String::from("kept")];
    global.flush(&window, &mut out);
    global.flush(&window, &mut out);
    assert_eq!(out, vec![String::from("kept")]);
}

#[test]
fn flush_writes_in_queue_order_after_what_was_written() {
    let mut global = Global::default();
    let window = global.window();
    let mut out: Vec<String> = vec![String::from("earlier")];
    global.push(String::from("one"), &window, &mut out);
    global.push(String::from("two"), &window, &mut out);
    global.flush(&window, &mut out);
    assert_eq!(out, vec!["earlier", "one", "two"]);
    global.flush(&window, &mut out);
    assert_eq!(out, vec!["earlier", "one", "two"]);
}

#[test]
fn extend_hands_over_last_line_first() {
    let mut global = Global::default();
    let window = global.window();
    let mut out: Vec<String> = Vec::new();
    let mut lines = vec![String::from("a"), String::from("b"), String::from("c")];
    global.extend(&mut lines, &window, &mut out);
    assert!(lines.is_empty());
    assert!(out.is_empty());
    global.flush(&window, &mut out);
    assert_eq!(out, vec!["c", "b", "a"]);
}

#[test]
fn extend_counts_every_line() {
    let mut global = Global::default();
    let window = global.window();
    let mut out: Vec<String> = Vec::new();
    for batch in 0..3 {
        let mut lines = numbered(batch * 8, batch * 8 + 8);
        global.extend(&mut lines, &window, &mut out);
        assert!(out.is_empty());
    }
    let mut lines = numbered(24, 34);
    global.extend(&mut lines, &window, &mut out);
    assert_eq!(out.len(), 32);
    let mut expected: Vec<String> = Vec::new();
    for batch in 0..3 {
        let mut part = numbered(batch * 8, batch * 8 + 8);
        part.reverse();
        expected.extend(part);
    }
    let mut last = numbered(26, 34);
    last.reverse();
    expected.extend(last);
    assert_eq!(out, expected);
    global.flush(&window, &mut out);
    assert_eq!(&out[32..], &[String::from("line 25"), String::from("line 24")]);
}

#[test]
fn extend_of_nothing_changes_nothing() {
    let mut global = Global::default();
    let window = global.window();
    let mut out: Vec<String> = Vec::new();
    let mut lines: Vec<String> = Vec::new();
    global.extend(&mut lines, &window, &mut out);
    global.flush(&window, &mut out);
    assert!(out.is_empty());
}

#[test]
fn buffer_holds_eight_lines_back() {
    let mut global = Global::default();
    let mut local = Local::new(&global);
    let mut out: Vec<String> = Vec::new();
    for line in numbered(0, 8) {
        local.log(&mut global, line, &mut out);
    }
    let window = global.window();
    global.flush(&window, &mut out);
    assert!(out.is_empty());
}

#[test]
fn ninth_line_drains_the_eight_before_it() {
    let mut global = Global::default();
    let mut local = Local::new(&global);
    let mut out: Vec<String> = Vec::new();
    for line in numbered(0, 8) {
        local.log(&mut global, line, &mut out);
    }
    assert!(out.is_empty());
    local.log(&mut global, String::from("line 8"), &mut out);
    let mut expected = numbered(0, 8);
    expected.reverse();
    assert_eq!(out, expected);
    local.flush(&mut global, &mut out);
    expected.push(String::from("line 8"));
    assert_eq!(out, expected);
}

#[test]
fn local_flush_writes_what_others_queued() {
    let mut global = Global::default();
    let mut first = Local::new(&global);
    let mut second = Local::new(&global);
    let mut out: Vec<String> = Vec::new();
    first.log(&mut global, String::from("from first"), &mut out);
    first.unregister(&mut global, &mut out);
    second.log(&mut global, String::from("from second"), &mut out);
    assert!(out.is_empty());
    second.flush(&mut global, &mut out);
    assert_eq!(out, vec!["from first", "from second"]);
}

#[test]
fn unregister_leaves_lines_in_the_queue() {
    let mut global = Global::default();
    let mut local = Local::new(&global);
    let mut out: Vec<String> = Vec::new();
    for line in ["a", "b", "c"] {
        local.log(&mut global, String::from(line), &mut out);
    }
    local.unregister(&mut global, &mut out);
    assert!(out.is_empty());
    let window = global.window();
    global.flush(&window, &mut out);
    assert_eq!(out, vec!["c", "b", "a"]);
}

#[test]
fn unregister_that_reaches_the_threshold_writes() {
    let mut global = Global::default();
    let window = global.window();
    let mut out: Vec<String> = Vec::new();
    for line in numbered(0, 30) {
        global.push(line, &window, &mut out);
    }
    let mut local = Local::new(&global);
    for line in ["a", "b", "c"] {
        local.log(&mut global, String::from(line), &mut out);
    }
    local.unregister(&mut global, &mut out);
    let mut expected = numbered(0, 30);
    expected.push(String::from("c"));
    expected.push(String::from("b"));
    assert_eq!(out, expected);
    global.flush(&window, &mut out);
    expected.push(String::from("a"));
    assert_eq!(out, expected);
}

#[test]
fn fork_starts_empty_in_the_same_domain() {
    let mut global = Global::default();
    let mut local = Local::new(&global);
    let mut out: Vec<String> = Vec::new();
    local.log(&mut global, String::from("kept back"), &mut out);
    let mut other = local.fork();
    other.flush(&mut global, &mut out);
    assert!(out.is_empty());
    other.log(&mut global, String::from("other"), &mut out);
    other.flush(&mut global, &mut out);
    assert_eq!(out, vec!["other"]);
    local.flush(&mut global, &mut out);
    assert_eq!(out, vec!["other", "kept back"]);
}

#[test]
fn windows_of_one_state_share_its_domain() {
    let global = Global::default();
    let first = global.window();
    let second = global.window();
    assert!(first.collector().is_some());
    assert!(first.collector() == second.collector());
}

#[test]
fn windows_of_two_states_belong_to_two_domains() {
    let global = Global::default();
    let stranger = Global::default();
    let window = global.window();
    let other = stranger.window();
    assert!(window.collector().is_some());
    assert!(other.collector().is_some());
    assert!(window.collector() != other.collector());
}

#[test]
fn window_outlives_pushes_and_flushes() {
    let mut global = Global::default();
    let window = global.window();
    let before = window.collector().cloned();
    let mut out: Vec<String> = Vec::new();
    global.push(String::from("one"), &window, &mut out);
    global.flush(&window, &mut out);
    assert_eq!(out, vec!["one"]);
    assert!(global.window().collector().cloned() == before);
}
