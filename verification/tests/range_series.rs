use jihaz::range::change::{
    Change, ChangeDirection, ChangeRequests, ChangeSessionSummary, RangeChangeCont,
};
use jihaz::range::Range2;

fn list_object() -> Vec<String> {
    vec![
        "A".into(),
        "B".into(),
        "C".into(),
        "A2".into(),
        "B2".into(),
        "C2".into(),
        "A3".into(),
        "B3".into(),
        "C3".into(),
    ]
}

fn handle_add_and_remove(change: &Change, list_object: &mut Vec<String>) {
    if let Change::Add { index, len } = change {
        for i in 0..*len {
            list_object.insert(*index + i, format!("New_{}", i));
        }
    } else if let Change::Remove { index, len } = change {
        for _ in 0..*len {
            list_object.remove(*index);
        }
    }
}

fn handle_changes(
    series_of_changes: &ChangeRequests,
    list_object: &mut Vec<String>,
    range: &mut Range2,
    summary: &mut ChangeSessionSummary,
    debugging: bool,
) {
    if debugging {
        for change in series_of_changes.requests.iter() {
            range.change_cont(change, summary);
            handle_add_and_remove(change, list_object);
        }
    } else {
        for change in series_of_changes.requests.iter() {
            handle_add_and_remove(change, list_object);
        }
        series_of_changes.apply_changes(range, summary);
    }
}

#[test]
fn series_of_changes_simple_np_remained() {
    let mut list_object: Vec<String> = list_object();
    let mut range = Range2::new(3, 3);
    let series_of_changes = ChangeRequests {
        requests: vec![
            Change::shift(2, ChangeDirection::End),
            Change::add(5, 2),
            Change::shift(3, ChangeDirection::Start),
            Change::remove(1, 4),
        ],
    };
    let mut summary = ChangeSessionSummary::new();
    handle_changes(&series_of_changes, &mut list_object, &mut range, &mut summary, true);
    let vec: Vec<String> = vec!["New_0".into(), "New_1".into()];
    assert_eq!(&list_object[range.range()], vec.as_slice());
}

#[test]
fn series_of_changes_simple_with_remained() {
    let mut list_object: Vec<String> = list_object();
    let list_object_original = list_object.clone();
    let mut range = Range2::new(3, 3);
    let series_of_changes = ChangeRequests {
        requests: vec![
            Change::shift(2, ChangeDirection::End),
            Change::add(5, 2),
            Change::shift(2, ChangeDirection::Start),
            Change::remove(1, 4),
        ],
    };
    let mut summary = ChangeSessionSummary::new();
    handle_changes(&series_of_changes, &mut list_object, &mut range, &mut summary, true);
    let vec: Vec<String> = vec!["New_0".into(), "New_1".into(), "C2".into()];
    assert_eq!(&list_object[range.range()], vec.as_slice());
    let remained = summary.remained().last().unwrap();
    assert_eq!(remained.remained_current(), 3..4);
    assert_eq!(remained.remained_original(), 5..6);
    assert_eq!(list_object[remained.remained_current()].last().unwrap().as_str(), "C2");
    assert_eq!(
        list_object_original[remained.remained_original()].last().unwrap().as_str(),
        "C2"
    );
}

#[test]
fn series_of_changes_long() {
    let mut list_object: Vec<String> = list_object();
    let mut range = Range2::new(3, 3);
    let series_of_changes = ChangeRequests {
        requests: vec![
            Change::shift(2, ChangeDirection::End),
            Change::add(5, 2),
            Change::shift(3, ChangeDirection::Start),
            Change::remove(1, 4),
            Change::add(4, 3),
            Change::remove(3, 2),
            Change::remove(3, 2),
            Change::remove(2, 1),
        ],
    };
    let mut summary = ChangeSessionSummary::new();
    handle_changes(&series_of_changes, &mut list_object, &mut range, &mut summary, true);
    let vec: Vec<String> = vec!["New_0".into()];
    assert_eq!(&list_object[range.range()], vec.as_slice());
}

#[test]
fn series_of_changes_long_zero_range() {
    let mut list_object: Vec<String> = list_object();
    let mut range = Range2::new(3, 3);
    let series_of_changes = ChangeRequests {
        requests: vec![
            Change::shift(2, ChangeDirection::End),
            Change::add(5, 2),
            Change::shift(3, ChangeDirection::Start),
            Change::remove(1, 4),
            Change::add(4, 3),
            Change::remove(3, 2),
            Change::remove(3, 2),
            Change::remove(2, 1),
            Change::remove(1, 2),
        ],
    };
    let mut summary = ChangeSessionSummary::new();
    handle_changes(&series_of_changes, &mut list_object, &mut range, &mut summary, true);
    let vec: Vec<String> = vec![];
    assert_eq!(&list_object[range.range()], vec.as_slice());
    assert_eq!(range.len(), 0);
}

#[test]
fn series_applied_at_once_matches_one_by_one() {
    let requests = vec![
        Change::shift(2, ChangeDirection::End),
        Change::add(5, 2),
        Change::shift(2, ChangeDirection::Start),
        Change::remove(1, 4),
    ];
    let series_of_changes = ChangeRequests::from(requests);
    let mut list_a = list_object();
    let mut range_a = Range2::new(3, 3);
    let mut summary_a = ChangeSessionSummary::new();
    handle_changes(&series_of_changes, &mut list_a, &mut range_a, &mut summary_a, false);
    let mut list_b = list_object();
    let mut range_b = Range2::new(3, 3);
    let mut summary_b = ChangeSessionSummary::new();
    handle_changes(&series_of_changes, &mut list_b, &mut range_b, &mut summary_b, true);
    assert_eq!(range_a.range(), range_b.range());
    assert_eq!(list_a, list_b);
    assert_eq!(summary_a.remained().len(), summary_b.remained().len());
}
