use std::cmp::Ordering;

use beachhead_companion::pending::Pending;

#[test]
fn map_keeps_the_mark() {
    let mapped = Pending { explicit: true, todo: 20u32 }.map(|n| n + 1);
    assert_eq!(mapped.explicit, true);
    assert_eq!(mapped.todo, 21);
    let mapped = Pending { explicit: false, todo: "web" }.map(|name| name.len());
    assert_eq!(mapped.explicit, false);
    assert_eq!(mapped.todo, 3);
}

#[test]
fn try_map_keeps_the_mark_on_success() {
    let mapped: Result<Pending<u32>, String> =
        Pending { explicit: true, todo: "17" }.try_map(|text| text.parse::<u32>().map_err(|e| e.to_string()));
    let mapped = mapped.expect("17 is a number");
    assert_eq!(mapped.explicit, true);
    assert_eq!(mapped.todo, 17);
    let mapped: Result<Pending<u32>, String> = Pending { explicit: false, todo: 4u32 }.try_map(|n| Ok(n * 2));
    let mapped = mapped.expect("success");
    assert_eq!(mapped.explicit, false);
    assert_eq!(mapped.todo, 8);
}

#[test]
fn try_map_hands_on_the_error() {
    let mapped: Result<Pending<u32>, String> =
        Pending { explicit: true, todo: 5u32 }.try_map(|n| Err(format!("no {}", n)));
    match mapped {
        Err(error) => assert_eq!(error, "no 5"),
        Ok(pending) => panic!("expected an error, got {:?}", pending),
    }
}

#[test]
fn pending_items_are_equal_where_their_work_is() {
    let explicit = Pending { explicit: true, todo: "web".to_owned() };
    let discovered = Pending { explicit: false, todo: "web".to_owned() };
    let other = Pending { explicit: true, todo: "db".to_owned() };
    assert!(explicit == discovered);
    assert!(explicit != other);
}

#[test]
fn pending_items_are_ordered_as_their_work_is() {
    let low = Pending { explicit: true, todo: 1u32 };
    let high = Pending { explicit: false, todo: 2u32 };
    let also_low = Pending { explicit: false, todo: 1u32 };
    assert_eq!(low.partial_cmp(&high), Some(Ordering::Less));
    assert_eq!(high.partial_cmp(&low), Some(Ordering::Greater));
    assert_eq!(low.partial_cmp(&also_low), Some(Ordering::Equal));
    assert!(low < high);
}
