use jihaz::collection::SmallKeyArray;
use jihaz::packaging::tablet::TabletChild;

fn sample() -> SmallKeyArray<TabletChild, i32, 3> {
    SmallKeyArray::new([
        (TabletChild::AppName, 1),
        (TabletChild::ExecutablePath, 2),
        (TabletChild::AppName, 3),
    ])
}

#[test]
fn the_first_pair_with_the_key_is_found() {
    let a = sample();
    assert_eq!(*a.get(&TabletChild::AppName), 1);
    assert_eq!(*a.get(&TabletChild::ExecutablePath), 2);
    assert_eq!(a.with(&TabletChild::AppName, |v| v * 10), 10);
}

#[test]
fn values_are_changed_by_key() {
    let mut a = sample();
    a.set(TabletChild::ExecutablePath, 20);
    assert_eq!(*a.get(&TabletChild::ExecutablePath), 20);
    // a key that no pair has changes nothing
    a.set(TabletChild::ProgressMessage, 9);
    assert_eq!(*a.get(&TabletChild::AppName), 1);
    assert_eq!(*a.get(&TabletChild::ExecutablePath), 20);
    *a.get_mut(&TabletChild::AppName) = 10;
    assert_eq!(*a.get(&TabletChild::AppName), 10);
    let r = a.with_mut(&TabletChild::AppName, |v| {
        *v += 1;
        *v * 2
    });
    assert_eq!(r, 22);
    assert_eq!(*a.get(&TabletChild::AppName), 11);
}

#[test]
fn all_values_with_one_key() {
    let a: SmallKeyArray<u8, &str, 3> = SmallKeyArray::new_same_key(7, ["x", "y", "z"]);
    assert_eq!(*a.get(&7), "x");
}
