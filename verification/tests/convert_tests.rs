use jihaz::convert::arc_rc::{InnerMutable, MakeMutable, TakeOrCloneInner, TakeOrCloneInnerBlanket};
use jihaz::convert::multi::{
    vec_from_each, vec_into_each, DrainMapDrainMapInto, DrainMapInto, DrainMapIntoInArc,
    DrainMapTakeOrCloneInner, MapInto, MapInto2, MapTake, TakeOrCloneInnerDrainMapInto,
};
use std::collections::HashMap;
use std::rc::Rc;
use std::sync::Arc;

/// A value that can be put back into a shared pointer, as `MapTake` asks of its values.
#[derive(Clone, Debug, PartialEq)]
struct Token(u8);

impl TakeOrCloneInner<Arc<Token>> for Token {
    fn take_or_clone_inner(self) -> Arc<Token> {
        Arc::new(self)
    }
}

#[test]
fn mutable_inner_values() {
    let mut a = Arc::new(5);
    *a.make_mutable() = 6;
    assert_eq!(*a, 6);
    let shared = a.clone();
    *a.make_mutable() = 7;
    assert_eq!((*a, *shared), (7, 6));
    let mut r = Rc::new(String::from("x"));
    r.inner_mutable().push('y');
    assert_eq!(r.as_str(), "xy");
    let shared = r.clone();
    r.make_mutable().push('z');
    assert_eq!((r.as_str(), shared.as_str()), ("xyz", "xy"));
}

#[test]
fn inner_values_taken_or_cloned() {
    let a = Arc::new(vec![1, 2]);
    assert_eq!(a.take_or_clone_inner(), vec![1, 2]);
    let a = Arc::new(vec![3]);
    let shared = a.clone();
    assert_eq!(a.take_or_clone_inner(), vec![3]);
    assert_eq!(*shared, vec![3]);
    let r = Rc::new(4u8);
    let x: u8 = r.take_or_clone_inner_blanket();
    assert_eq!(x, 4);
    let same: u8 = 9u8.take_or_clone_inner_blanket();
    assert_eq!(same, 9);
}

#[test]
fn vectors_converted_value_by_value() {
    let v: Vec<u32> = vec![1u8, 2, 44].drain_map_into();
    assert_eq!(v, vec![1u32, 2, 44]);
    assert_eq!(vec_from_each::<u8, u64>(vec![7, 8]), vec![7u64, 8]);
    assert_eq!(vec_into_each::<u8, i32>(vec![7, 8]), vec![7i32, 8]);
    let arcs: Vec<Arc<u16>> = vec![1u8, 2].drain_map_into_in_arc();
    assert_eq!(arcs.iter().map(|a| **a).collect::<Vec<u16>>(), vec![1, 2]);
    let taken: Vec<u8> = vec![Arc::new(1u8), Arc::new(2u8)].drain_map_take_or_clone_inner();
    assert_eq!(taken, vec![1, 2]);
    let nested: Vec<Vec<u16>> = vec![vec![1u8], vec![2u8, 3u8]].drain_map_drain_map_into();
    assert_eq!(nested, vec![vec![1u16], vec![2, 3]]);
    let from_arc: Vec<u16> = Arc::new(vec![5u8, 6u8]).take_or_clone_inner_drain_map_into();
    assert_eq!(from_arc, vec![5, 6]);
    let mapped = <Vec<u8> as MapInto<u8, (), u32>>::dmapi(vec![1, 2]);
    assert_eq!(mapped, vec![1u32, 2]);
    let pairs = <Vec<(u8, u8)> as MapInto2<u8, u8, u16, u32>>::dmapi2(vec![(1, 2), (3, 4)]);
    assert_eq!(pairs, vec![(1u32, 2u16), (3, 4)]);
    let taken = <Vec<Arc<Token>> as MapTake<Arc<Token>, (), Token>>::dmapt(vec![Arc::new(Token(5))]);
    assert_eq!(taken, vec![Token(5)]);
}

#[test]
fn maps_converted_entry_by_entry() {
    let mut m: HashMap<u8, u8> = HashMap::new();
    m.insert(1, 10);
    m.insert(2, 20);
    let converted: HashMap<u16, u32> = m.clone().drain_map_into();
    assert_eq!(converted.len(), 2);
    assert_eq!(converted[&1u16], 10u32);
    assert_eq!(converted[&2u16], 20u32);
    let in_arcs: HashMap<u16, Arc<u32>> = m.clone().drain_map_into_in_arc();
    assert_eq!(*in_arcs[&2u16], 20u32);
    let values = <HashMap<u8, u8> as MapInto<u8, u8, u64>>::dmapi(m.clone());
    assert_eq!(values[&1u8], 10u64);
    let both = <HashMap<u8, u8> as MapInto2<u8, u8, u32, u16>>::dmapi2(m.clone());
    assert_eq!(both[&2u16], 20u32);
    let mut shared: HashMap<u8, Arc<Token>> = HashMap::new();
    shared.insert(3, Arc::new(Token(30)));
    let taken = <HashMap<u8, Arc<Token>> as MapTake<Arc<Token>, u8, Token>>::dmapt(shared);
    assert_eq!(taken[&3u8], Token(30));
    let from_arc: HashMap<u16, u32> = Arc::new(m).take_or_clone_inner_drain_map_into();
    assert_eq!(from_arc[&1u16], 10u32);
}

#[test]
fn nested_maps_drained() {
    let mut nested: HashMap<u8, Vec<u8>> = HashMap::new();
    nested.insert(1, vec![1, 2]);
    nested.insert(2, vec![]);
    let drained: HashMap<u16, Vec<u16>> = nested.drain_map_drain_map_into();
    assert_eq!(drained.len(), 2);
    assert_eq!(drained[&1u16], vec![1u16, 2]);
    assert!(drained[&2u16].is_empty());
}
