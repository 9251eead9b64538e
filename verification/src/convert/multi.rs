//! Traits that convert all the values inside containers and collections at once.
use vstd::prelude::*;
use vstd::std_specs::convert::{FromSpec, IntoSpec};
use std::collections::HashMap;
use std::hash::Hash;
use std::sync::Arc;
use vstd::std_specs::hash::obeys_key_model;
use super::arc_rc::{TakeOrCloneInner, TakeOrCloneInnerBlanket};

verus! {

/// `out` holds, in order, what `f` gave for each of the items.
pub open spec fn converted_by<A, B, F: Fn(A) -> B>(items: Seq<A>, out: Seq<B>, f: F) -> bool {
    &&& out.len() == items.len()
    &&& forall|i: int| 0 <= i < out.len() ==> f.ensures((items[i],), #[trigger] out[i])
}

/// The values in their order, each converted by `f`.
fn convert_each<V1, V2, F: Fn(V1) -> V2>(values: Vec<V1>, f: F) -> (r: Vec<V2>)
    requires
        forall|v: V1| #[trigger] f.requires((v,)),
    ensures
        converted_by(values@, r@, f),
{
    let ghost original = values@;
    let mut values = values;
    let mut reversed: Vec<V1> = Vec::new();
    while values.len() > 0
        invariant
            values@ + reversed@.reverse() == original,
        decreases values@.len(),
    {
        let v = values.pop().unwrap();
        reversed.push(v);
        proof {
            assert(values@ + reversed@.reverse() =~= original);
        }
    }
    assert(reversed@.reverse() =~= original);
    let mut out: Vec<V2> = Vec::new();
    while reversed.len() > 0
        invariant
            forall|v: V1| #[trigger] f.requires((v,)),
            out@.len() + reversed@.len() == original.len(),
            reversed@.reverse() == original.subrange(out@.len() as int, original.len() as int),
            forall|i: int| 0 <= i < out@.len() ==> f.ensures((original[i],), #[trigger] out@[i]),
        decreases reversed@.len(),
    {
        let ghost k = out@.len() as int;
        let ghost before = reversed@;
        let v = reversed.pop().unwrap();
        proof {
            assert(before.reverse()[0] == original[k]);
            assert(v == original[k]);
            assert forall|j: int| 0 <= j < reversed@.len() implies reversed@.reverse()[j]
                == original[k + 1 + j] by {
                assert(reversed@.reverse()[j] == before.reverse()[j + 1]);
            }
            assert(reversed@.reverse() =~= original.subrange(k + 1, original.len() as int));
        }
        let converted = f(v);
        out.push(converted);
    }
    out
}

/// The values converted by `From`, in their order.
pub open spec fn from_each<V1, V2: From<V1>>(s: Seq<V1>) -> Seq<V2> {
    s.map_values(|v: V1| V2::from_spec(v))
}

/// The values converted by `Into`, in their order.
pub open spec fn into_each<V1: Into<V2>, V2>(s: Seq<V1>) -> Seq<V2> {
    s.map_values(|v: V1| v.into_spec())
}

/// The value converted by `From`.
pub fn from_value<V1, V2: From<V1>>(v: V1) -> (r: V2)
    ensures
        V2::obeys_from_spec() ==> r == V2::from_spec(v),
{
    V2::from(v)
}

/// The value converted by `From`, in a new `Arc`.
pub fn from_value_in_arc<V1, V2: From<V1>>(v: V1) -> (r: Arc<V2>)
    ensures
        V2::obeys_from_spec() ==> *r == V2::from_spec(v),
{
    Arc::new(V2::from(v))
}

/// The value converted by `Into`.
pub fn into_value<V1: Into<V2>, V2>(v: V1) -> (r: V2)
    ensures
        V1::obeys_into_spec() ==> r == v.into_spec(),
{
    v.into()
}

/// The pair with each of its values converted by `Into`.
pub fn into_pair<K1: Into<K2>, V1: Into<V2>, K2, V2>(pair: (K1, V1)) -> (r: (K2, V2))
    ensures
        K1::obeys_into_spec() ==> r.0 == pair.0.into_spec(),
        V1::obeys_into_spec() ==> r.1 == pair.1.into_spec(),
{
    let (k, v) = pair;
    (k.into(), v.into())
}

/// The inner value of an `Arc`, taken or cloned.
pub fn take_or_clone_arc<T: Clone>(v: Arc<T>) -> (r: T)
    ensures
        cloned::<T>(*v, r),
{
    v.take_or_clone_inner()
}

/// Drains the collection, and converts each value into another type.
pub trait DrainMapInto<T>: Sized {
    /// `out` is what draining the collection and converting each value gives.
    spec fn drained_into(self, out: T) -> bool;

    fn drain_map_into(self) -> (r: T)
        ensures
            self.drained_into(r),
    ;
}

impl<Value1, Value2: From<Value1>> DrainMapInto<Vec<Value2>> for Vec<Value1> {
    open spec fn drained_into(self, out: Vec<Value2>) -> bool {
        &&& out@.len() == self@.len()
        &&& Value2::obeys_from_spec() ==> out@ == from_each::<Value1, Value2>(self@)
    }

    fn drain_map_into(self) -> Vec<Value2> {
        vec_from_each(self)
    }
}

/// The values in their order, each converted by `From`.
pub fn vec_from_each<V1, V2: From<V1>>(values: Vec<V1>) -> (r: Vec<V2>)
    ensures
        r@.len() == values@.len(),
        V2::obeys_from_spec() ==> r@ == from_each::<V1, V2>(values@),
{
    let r = convert_each(values, from_value::<V1, V2>);
    proof {
        if V2::obeys_from_spec() {
            assert(r@ =~= from_each::<V1, V2>(values@));
        }
    }
    r
}

/// Takes the inner collection, or a clone of it, and converts each of its values into
/// another type.
pub trait TakeOrCloneInnerDrainMapInto<T>: Sized {
    /// `out` is what taking the inner collection, or a clone of it, and converting each of
    /// its values gives.
    spec fn taken_drained_into(self, out: T) -> bool;

    fn take_or_clone_inner_drain_map_into(self) -> (r: T)
        ensures
            self.taken_drained_into(r),
    ;
}

impl<Value1: Clone, Value2: From<Value1>> TakeOrCloneInnerDrainMapInto<Vec<Value2>> for Arc<
    Vec<Value1>,
> {
    open spec fn taken_drained_into(self, out: Vec<Value2>) -> bool {
        exists|taken: Vec<Value1>|
            cloned::<Vec<Value1>>(*self, taken) && out@.len() == taken@.len() && (
            Value2::obeys_from_spec() ==> out@ == from_each::<Value1, Value2>(taken@))
    }

    fn take_or_clone_inner_drain_map_into(self) -> Vec<Value2> {
        arc_vec_from_each(self)
    }
}

/// The values of the vector in the `Arc`, taken or cloned, in their order, each converted by
/// `From`.
pub fn arc_vec_from_each<V1: Clone, V2: From<V1>>(values: Arc<Vec<V1>>) -> (r: Vec<V2>)
    ensures
        exists|taken: Vec<V1>|
            cloned::<Vec<V1>>(*values, taken) && r@.len() == taken@.len() && (
            V2::obeys_from_spec() ==> r@ == from_each::<V1, V2>(taken@)),
{
    let taken = take_or_clone_arc(values);
    vec_from_each(taken)
}

/// Drains the collection, and converts each value into another type, in a new `Arc`.
pub trait DrainMapIntoInArc<T>: Sized {
    /// `out` is what draining the collection and converting each value into a new `Arc`
    /// gives.
    spec fn drained_into_in_arc(self, out: T) -> bool;

    fn drain_map_into_in_arc(self) -> (r: T)
        ensures
            self.drained_into_in_arc(r),
    ;
}

impl<Value1, Value2: From<Value1>> DrainMapIntoInArc<Vec<Arc<Value2>>> for Vec<Value1> {
    open spec fn drained_into_in_arc(self, out: Vec<Arc<Value2>>) -> bool {
        &&& out@.len() == self@.len()
        &&& Value2::obeys_from_spec() ==> forall|i: int|
            0 <= i < out@.len() ==> *#[trigger] out@[i] == Value2::from_spec(self@[i])
    }

    fn drain_map_into_in_arc(self) -> Vec<Arc<Value2>> {
        vec_from_each_in_arc(self)
    }
}

/// The values in their order, each converted by `From` and put in a new `Arc`.
pub fn vec_from_each_in_arc<V1, V2: From<V1>>(values: Vec<V1>) -> (r: Vec<Arc<V2>>)
    ensures
        r@.len() == values@.len(),
        V2::obeys_from_spec() ==> forall|i: int|
            0 <= i < r@.len() ==> *#[trigger] r@[i] == V2::from_spec(values@[i]),
{
    convert_each(values, from_value_in_arc::<V1, V2>)
}

/// Drains the collection, and takes the inner value of each of its values, or a clone of it.
pub trait DrainMapTakeOrCloneInner<T>: Sized {
    /// `out` is what draining the collection and taking the inner value of each value, or a
    /// clone of it, gives.
    spec fn drained_taken(self, out: T) -> bool;

    fn drain_map_take_or_clone_inner(self) -> (r: T)
        ensures
            self.drained_taken(r),
    ;
}

impl<Value1: TakeOrCloneInner<Value2>, Value2> DrainMapTakeOrCloneInner<Vec<Value2>> for Vec<
    Value1,
> {
    open spec fn drained_taken(self, out: Vec<Value2>) -> bool {
        converted_by(self@, out@, <Value1 as TakeOrCloneInner<Value2>>::take_or_clone_inner)
    }

    fn drain_map_take_or_clone_inner(self) -> Vec<Value2> {
        convert_each(self, <Value1 as TakeOrCloneInner<Value2>>::take_or_clone_inner)
    }
}

/// Drains the collection, and drains and converts each of its values.
pub trait DrainMapDrainMapInto<T, DrainMapIntoT>: Sized {
    /// `out` is what draining the collection, and draining and converting each value, gives.
    spec fn drained_drained_into(self, out: T) -> bool;

    fn drain_map_drain_map_into(self) -> (r: T)
        ensures
            self.drained_drained_into(r),
    ;
}

impl<Value: DrainMapInto<DrainMapIntoT>, DrainMapIntoT> DrainMapDrainMapInto<
    Vec<DrainMapIntoT>,
    DrainMapIntoT,
> for Vec<Value> {
    open spec fn drained_drained_into(self, out: Vec<DrainMapIntoT>) -> bool {
        converted_by(self@, out@, <Value as DrainMapInto<DrainMapIntoT>>::drain_map_into)
    }

    fn drain_map_drain_map_into(self) -> Vec<DrainMapIntoT> {
        convert_each(self, <Value as DrainMapInto<DrainMapIntoT>>::drain_map_into)
    }
}

/// Drains the collection, and drains and converts each of its values, each in a new `Arc`.
pub trait DrainMapDrainMapIntoInArc<T, DrainMapIntoT>: Sized {
    /// `out` is what draining the collection, and draining and converting each value into a
    /// new `Arc`, gives.
    spec fn drained_drained_into_in_arc(self, out: T) -> bool;

    fn drain_map_drain_map_into_in_arc(self) -> (r: T)
        ensures
            self.drained_drained_into_in_arc(r),
    ;
}

/// A value drained and converted, in a new `Arc`.
pub fn drain_map_into_in_arc<V: DrainMapInto<T>, T>(v: V) -> (r: Arc<T>)
    ensures
        call_ensures(V::drain_map_into, (v,), *r),
{
    Arc::new(v.drain_map_into())
}

impl<Value: DrainMapInto<DrainMapIntoT>, DrainMapIntoT> DrainMapDrainMapIntoInArc<
    Vec<Arc<DrainMapIntoT>>,
    DrainMapIntoT,
> for Vec<Value> {
    open spec fn drained_drained_into_in_arc(self, out: Vec<Arc<DrainMapIntoT>>) -> bool {
        converted_by(self@, out@, drain_map_into_in_arc::<Value, DrainMapIntoT>)
    }

    fn drain_map_drain_map_into_in_arc(self) -> Vec<Arc<DrainMapIntoT>> {
        convert_each(self, drain_map_into_in_arc::<Value, DrainMapIntoT>)
    }
}

/// Drains the collection, and for each of its values takes its inner collection, or a clone of
/// it, and converts the values of that.
pub trait DrainMapTakeOrCloneInnerDrainMapInto<T, TakeOrCloneInnerDrainMapIntoT>: Sized {
    /// `out` is what draining the collection, and for each value taking its inner collection
    /// or a clone of it and converting its values, gives.
    spec fn drained_taken_drained_into(self, out: T) -> bool;

    fn drain_map_take_or_clone_inner_drain_map_into(self) -> (r: T)
        ensures
            self.drained_taken_drained_into(r),
    ;
}

impl<
    Value: TakeOrCloneInnerDrainMapInto<TakeOrCloneInnerDrainMapIntoT>,
    TakeOrCloneInnerDrainMapIntoT,
> DrainMapTakeOrCloneInnerDrainMapInto<
    Vec<TakeOrCloneInnerDrainMapIntoT>,
    TakeOrCloneInnerDrainMapIntoT,
> for Vec<Value> {
    open spec fn drained_taken_drained_into(self, out: Vec<TakeOrCloneInnerDrainMapIntoT>) -> bool {
        converted_by(
            self@,
            out@,
            <Value as TakeOrCloneInnerDrainMapInto<
                TakeOrCloneInnerDrainMapIntoT,
            >>::take_or_clone_inner_drain_map_into,
        )
    }

    fn drain_map_take_or_clone_inner_drain_map_into(self) -> Vec<TakeOrCloneInnerDrainMapIntoT> {
        convert_each(
            self,
            <Value as TakeOrCloneInnerDrainMapInto<
                TakeOrCloneInnerDrainMapIntoT,
            >>::take_or_clone_inner_drain_map_into,
        )
    }
}

/// Drains the collection, and for each of its values drains it and takes the inner value of
/// each of its values, or a clone of it.
pub trait DrainMapDrainMapTakeOrCloneInner<T, DrainMapTakeOrCloneInnerT>: Sized {
    /// `out` is what draining the collection, and draining each value and taking the inner
    /// value of each of its values or a clone of it, gives.
    spec fn drained_drained_taken(self, out: T) -> bool;

    fn drain_map_drain_map_take_or_clone_inner(self) -> (r: T)
        ensures
            self.drained_drained_taken(r),
    ;
}

impl<
    Value: DrainMapTakeOrCloneInner<DrainMapTakeOrCloneInnerT>,
    DrainMapTakeOrCloneInnerT,
> DrainMapDrainMapTakeOrCloneInner<Vec<DrainMapTakeOrCloneInnerT>, DrainMapTakeOrCloneInnerT> for Vec<
    Value,
> {
    open spec fn drained_drained_taken(self, out: Vec<DrainMapTakeOrCloneInnerT>) -> bool {
        converted_by(
            self@,
            out@,
            <Value as DrainMapTakeOrCloneInner<DrainMapTakeOrCloneInnerT>>::drain_map_take_or_clone_inner,
        )
    }

    fn drain_map_drain_map_take_or_clone_inner(self) -> Vec<DrainMapTakeOrCloneInnerT> {
        convert_each(
            self,
            <Value as DrainMapTakeOrCloneInner<DrainMapTakeOrCloneInnerT>>::drain_map_take_or_clone_inner,
        )
    }
}

/// Drains the collection, and for each of its values drains it, takes the inner value of
/// each of its values or a clone of it, and converts the result.
pub trait DrainMapDrainMapTakeOrCloneInnerInto<T, DrainMapTakeOrCloneInnerT, IntoT>: Sized {
    /// `out` is what draining the collection, draining each value and taking the inner value
    /// of each of its values or a clone of it, and converting the result, gives.
    spec fn drained_drained_taken_into(self, out: T) -> bool;

    fn drain_map_drain_map_take_or_clone_inner(self) -> (r: T)
        ensures
            self.drained_drained_taken_into(r),
    ;
}

/// A value drained, with the inner values taken or cloned, and converted.
pub fn drain_map_take_or_clone_inner_into<V: DrainMapTakeOrCloneInner<T>, T: Into<U>, U>(v: V) -> (r: U)
    ensures
        exists|t: T|
            #![trigger call_ensures(V::drain_map_take_or_clone_inner, (v,), t)]
            call_ensures(V::drain_map_take_or_clone_inner, (v,), t) && (T::obeys_into_spec()
                ==> r == t.into_spec()),
{
    let ghost given = v;
    let drain = <V as DrainMapTakeOrCloneInner<T>>::drain_map_take_or_clone_inner;
    let t = drain(v);
    let ghost drained = t;
    let r = into_value::<T, U>(t);
    assert(call_ensures(V::drain_map_take_or_clone_inner, (given,), drained));
    assert(T::obeys_into_spec() ==> r == drained.into_spec());
    r
}

impl<
    Value: DrainMapTakeOrCloneInner<DrainMapTakeOrCloneInnerT>,
    DrainMapTakeOrCloneInnerT: Into<IntoT>,
    IntoT,
> DrainMapDrainMapTakeOrCloneInnerInto<Vec<IntoT>, DrainMapTakeOrCloneInnerT, IntoT> for Vec<
    Value,
> {
    open spec fn drained_drained_taken_into(self, out: Vec<IntoT>) -> bool {
        converted_by(
            self@,
            out@,
            drain_map_take_or_clone_inner_into::<Value, DrainMapTakeOrCloneInnerT, IntoT>,
        )
    }

    fn drain_map_drain_map_take_or_clone_inner(self) -> Vec<IntoT> {
        convert_each(
            self,
            drain_map_take_or_clone_inner_into::<Value, DrainMapTakeOrCloneInnerT, IntoT>,
        )
    }
}

/// Drains the collection, and converts each value into another type.
pub trait MapInto<T1: Into<U>, T2, U>: Sized {
    type Out;

    /// `out` is what draining the collection and converting each value gives.
    spec fn mapped_into(self, out: Self::Out) -> bool;

    fn dmapi(self) -> (r: Self::Out)
        ensures
            self.mapped_into(r),
    ;
}

impl<T1: Into<U>, U> MapInto<T1, (), U> for Vec<T1> {
    type Out = Vec<U>;

    open spec fn mapped_into(self, out: Vec<U>) -> bool {
        &&& out@.len() == self@.len()
        &&& T1::obeys_into_spec() ==> out@ == into_each::<T1, U>(self@)
    }

    fn dmapi(self) -> Vec<U> {
        vec_into_each(self)
    }
}

/// The values in their order, each converted by `Into`.
pub fn vec_into_each<V1: Into<V2>, V2>(values: Vec<V1>) -> (r: Vec<V2>)
    ensures
        r@.len() == values@.len(),
        V1::obeys_into_spec() ==> r@ == into_each::<V1, V2>(values@),
{
    let r = convert_each(values, into_value::<V1, V2>);
    proof {
        if V1::obeys_into_spec() {
            assert(r@ =~= into_each::<V1, V2>(values@));
        }
    }
    r
}

/// Drains the collection of pairs, and converts both values of each pair into other types.
pub trait MapInto2<T1: Into<U1>, T2: Into<U2>, U1, U2>: Sized {
    type Out;

    /// `out` is what draining the collection of pairs and converting both values of each
    /// gives.
    spec fn mapped_into2(self, out: Self::Out) -> bool;

    fn dmapi2(self) -> (r: Self::Out)
        ensures
            self.mapped_into2(r),
    ;
}

impl<T1: Into<U1>, T2: Into<U2>, U1, U2> MapInto2<T1, T2, U1, U2> for Vec<(T2, T1)> {
    type Out = Vec<(U2, U1)>;

    open spec fn mapped_into2(self, out: Vec<(U2, U1)>) -> bool {
        &&& out@.len() == self@.len()
        &&& T2::obeys_into_spec() ==> forall|i: int|
            0 <= i < out@.len() ==> (#[trigger] out@[i]).0 == self@[i].0.into_spec()
        &&& T1::obeys_into_spec() ==> forall|i: int|
            0 <= i < out@.len() ==> (#[trigger] out@[i]).1 == self@[i].1.into_spec()
    }

    fn dmapi2(self) -> Vec<(U2, U1)> {
        vec_into_each_pair(self)
    }
}

/// The pairs in their order, each with both of its values converted by `Into`.
pub fn vec_into_each_pair<K1: Into<K2>, V1: Into<V2>, K2, V2>(pairs: Vec<(K1, V1)>) -> (r: Vec<
    (K2, V2),
>)
    ensures
        r@.len() == pairs@.len(),
        K1::obeys_into_spec() ==> forall|i: int|
            0 <= i < r@.len() ==> (#[trigger] r@[i]).0 == pairs@[i].0.into_spec(),
        V1::obeys_into_spec() ==> forall|i: int|
            0 <= i < r@.len() ==> (#[trigger] r@[i]).1 == pairs@[i].1.into_spec(),
{
    convert_each(pairs, into_pair::<K1, V1, K2, V2>)
}

/// Drains the collection of shared values, and takes the inner value of each, or a clone of
/// it.
pub trait MapTake<T1, T2, U: TakeOrCloneInner<T1>>: Sized {
    type Out;

    /// `out` is what draining the collection of shared values and taking the inner value of
    /// each, or a clone of it, gives.
    spec fn mapped_taken(self, out: Self::Out) -> bool;

    fn dmapt(self) -> (r: Self::Out)
        ensures
            self.mapped_taken(r),
    ;
}

impl<T1: TakeOrCloneInner<Arc<T1>> + Clone> MapTake<Arc<T1>, (), T1> for Vec<Arc<T1>> {
    type Out = Vec<T1>;

    open spec fn mapped_taken(self, out: Vec<T1>) -> bool {
        &&& out@.len() == self@.len()
        &&& forall|i: int| 0 <= i < out@.len() ==> cloned::<T1>(*self@[i], #[trigger] out@[i])
    }

    fn dmapt(self) -> Vec<T1> {
        vec_take_or_clone_each(self)
    }
}

/// The inner values of the `Arc`s in their order, each taken or cloned.
pub fn vec_take_or_clone_each<T: Clone>(values: Vec<Arc<T>>) -> (r: Vec<T>)
    ensures
        r@.len() == values@.len(),
        forall|i: int| 0 <= i < r@.len() ==> cloned::<T>(*values@[i], #[trigger] r@[i]),
{
    convert_each(values, take_or_clone_arc::<T>)
}

/// `ps` lists the entries of `m`, each key once, in some order.
pub open spec fn lists_entries<K, V>(m: Map<K, V>, ps: Seq<(K, V)>) -> bool {
    &&& forall|k: K| m.contains_key(k) <==> exists|i: int| 0 <= i < ps.len() && #[trigger] ps[i].0 == k
    &&& forall|i: int| 0 <= i < ps.len() ==> m.contains_key(#[trigger] ps[i].0) && m[ps[i].0] == ps[i].1
    &&& forall|i: int, j: int| 0 <= i < j < ps.len() ==> #[trigger] ps[i].0 != #[trigger] ps[j].0
}

/// The map of the pairs: each key with the value of its last pair.
pub open spec fn map_of_pairs<K, V>(ps: Seq<(K, V)>) -> Map<K, V>
    decreases ps.len(),
{
    if ps.len() == 0 {
        Map::empty()
    } else {
        map_of_pairs(ps.drop_last()).insert(ps.last().0, ps.last().1)
    }
}

/// `HashMap::into_iter`, collected: the entries of the map, each key once, in an order that
/// the map does not show.
#[verifier::external_body]
fn hash_map_entries<K, V>(m: HashMap<K, V>) -> (r: Vec<(K, V)>)
    ensures
        obeys_key_model::<K>() ==> lists_entries(m@, r@),
{
    m.into_iter().collect()
}

/// The map of the pairs, inserted in their order.
fn collect_pairs<K: Eq + Hash, V>(pairs: Vec<(K, V)>) -> (r: HashMap<K, V>)
    ensures
        obeys_key_model::<K>() ==> r@ == map_of_pairs(pairs@),
{
    broadcast use vstd::std_specs::hash::group_hash_axioms;

    let ghost original = pairs@;
    let mut pairs = pairs;
    let mut reversed: Vec<(K, V)> = Vec::new();
    while pairs.len() > 0
        invariant
            pairs@ + reversed@.reverse() == original,
        decreases pairs@.len(),
    {
        let p = pairs.pop().unwrap();
        reversed.push(p);
        proof {
            assert(pairs@ + reversed@.reverse() =~= original);
        }
    }
    assert(reversed@.reverse() =~= original);
    let mut map: HashMap<K, V> = HashMap::new();
    while reversed.len() > 0
        invariant
            reversed@.len() <= original.len(),
            reversed@.reverse() == original.subrange(
                original.len() - reversed@.len(),
                original.len() as int,
            ),
            obeys_key_model::<K>() ==> map@ == map_of_pairs(
                original.subrange(0, original.len() - reversed@.len()),
            ),
        decreases reversed@.len(),
    {
        let ghost k = original.len() - reversed@.len();
        let ghost before = reversed@;
        let (key, value) = reversed.pop().unwrap();
        proof {
            assert(before.reverse()[0] == original[k]);
            assert forall|j: int| 0 <= j < reversed@.len() implies reversed@.reverse()[j]
                == original[k + 1 + j] by {
                assert(reversed@.reverse()[j] == before.reverse()[j + 1]);
            }
            assert(reversed@.reverse() =~= original.subrange(k + 1, original.len() as int));
            assert(original.subrange(0, k + 1).drop_last() =~= original.subrange(0, k));
        }
        map.insert(key, value);
    }
    assert(original.subrange(0, original.len() as int) =~= original);
    map
}

/// `out` is the map of the entries of `m`, each converted by `f`, inserted in some order in
/// which the entries list `m`, each key once.
pub open spec fn entries_converted_by<K1, V1, K2, V2, F: Fn((K1, V1)) -> (K2, V2)>(
    m: Map<K1, V1>,
    out: Map<K2, V2>,
    f: F,
) -> bool {
    exists|ps: Seq<(K1, V1)>, qs: Seq<(K2, V2)>|
        #![trigger lists_entries(m, ps), map_of_pairs(qs)]
        lists_entries(m, ps) && converted_by(ps, qs, f) && out == map_of_pairs(qs)
}

/// The map of the entries of `m`, each converted by `f`, inserted in an order that `m` does not
/// show; where two converted keys are the same, the value of the one inserted last stays.
pub fn map_entries<K1, V1, K2: Eq + Hash, V2, F: Fn((K1, V1)) -> (K2, V2)>(m: HashMap<K1, V1>, f: F) -> (r: HashMap<K2, V2>)
    requires
        forall|p: (K1, V1)| #[trigger] f.requires((p,)),
    ensures
        obeys_key_model::<K1>() && obeys_key_model::<K2>() ==> entries_converted_by(m@, r@, f),
{
    let entries = hash_map_entries(m);
    let ghost ps = entries@;
    let converted = convert_each(entries, f);
    let ghost qs = converted@;
    let r = collect_pairs(converted);
    proof {
        if obeys_key_model::<K1>() && obeys_key_model::<K2>() {
            assert(lists_entries(m@, ps) && map_of_pairs(qs) == r@);
        }
    }
    r
}

/// The pair with both values converted by `Into`; its key and its value.
pub fn pair_into<K1: Into<K2>, V1: Into<V2>, K2, V2>(p: (K1, V1)) -> (r: (K2, V2))
    ensures
        K1::obeys_into_spec() ==> r.0 == p.0.into_spec(),
        V1::obeys_into_spec() ==> r.1 == p.1.into_spec(),
{
    into_pair(p)
}

/// The pair with its key converted by `Into` and its value by `From` into a new `Arc`.
pub fn pair_into_in_arc<K1: Into<K2>, V1, K2, V2: From<V1>>(p: (K1, V1)) -> (r: (K2, Arc<V2>))
    ensures
        K1::obeys_into_spec() ==> r.0 == p.0.into_spec(),
        V2::obeys_from_spec() ==> *r.1 == V2::from_spec(p.1),
{
    let (k, v) = p;
    (k.into(), from_value_in_arc(v))
}

/// The pair with its key and its value taken or cloned.
pub fn pair_take_or_clone<K1: TakeOrCloneInner<K2>, V1: TakeOrCloneInner<V2>, K2, V2>(p: (K1, V1)) -> (r: (K2, V2))
    ensures
        call_ensures(K1::take_or_clone_inner, (p.0,), r.0),
        call_ensures(V1::take_or_clone_inner, (p.1,), r.1),
{
    let (k, v) = p;
    let take_key = <K1 as TakeOrCloneInner<K2>>::take_or_clone_inner;
    let take_value = <V1 as TakeOrCloneInner<V2>>::take_or_clone_inner;
    (take_key(k), take_value(v))
}

/// The pair with its key converted by `Into` and its value drained and converted.
pub fn pair_drain_map_into<K1: Into<K2>, V: DrainMapInto<T>, K2, T>(p: (K1, V)) -> (r: (K2, T))
    ensures
        K1::obeys_into_spec() ==> r.0 == p.0.into_spec(),
        call_ensures(V::drain_map_into, (p.1,), r.1),
{
    let (k, v) = p;
    let drain = <V as DrainMapInto<T>>::drain_map_into;
    (k.into(), drain(v))
}

/// The pair with its key converted by `Into` and its value drained and converted into a new
/// `Arc`.
pub fn pair_drain_map_into_in_arc<K1: Into<K2>, V: DrainMapInto<T>, K2, T>(p: (K1, V)) -> (r: (K2, Arc<T>))
    ensures
        K1::obeys_into_spec() ==> r.0 == p.0.into_spec(),
        call_ensures(V::drain_map_into, (p.1,), *r.1),
{
    let (k, v) = p;
    let drain = <V as DrainMapInto<T>>::drain_map_into;
    (k.into(), Arc::new(drain(v)))
}

/// The pair with its key taken, cloned or kept, and its value's inner collection taken or
/// cloned and converted.
pub fn pair_blanket_take_or_clone_drain_map_into<
    K1: TakeOrCloneInnerBlanket<K2>,
    V: TakeOrCloneInnerDrainMapInto<T>,
    K2,
    T,
>(p: (K1, V)) -> (r: (K2, T))
    ensures
        call_ensures(K1::take_or_clone_inner_blanket, (p.0,), r.0),
        call_ensures(V::take_or_clone_inner_drain_map_into, (p.1,), r.1),
{
    let (k, v) = p;
    let take_key = <K1 as TakeOrCloneInnerBlanket<K2>>::take_or_clone_inner_blanket;
    let take_value = <V as TakeOrCloneInnerDrainMapInto<T>>::take_or_clone_inner_drain_map_into;
    (take_key(k), take_value(v))
}

/// The pair with its key taken or cloned, and its value drained with its inner values taken or
/// cloned.
pub fn pair_take_or_clone_drain_map_take<
    K1: TakeOrCloneInner<K2>,
    V: DrainMapTakeOrCloneInner<T>,
    K2,
    T,
>(p: (K1, V)) -> (r: (K2, T))
    ensures
        call_ensures(K1::take_or_clone_inner, (p.0,), r.0),
        call_ensures(V::drain_map_take_or_clone_inner, (p.1,), r.1),
{
    let (k, v) = p;
    let take_key = <K1 as TakeOrCloneInner<K2>>::take_or_clone_inner;
    let drain = <V as DrainMapTakeOrCloneInner<T>>::drain_map_take_or_clone_inner;
    (take_key(k), drain(v))
}

/// The pair with its key taken or cloned, and its value drained with its inner values taken or
/// cloned, and converted.
pub fn pair_take_or_clone_drain_map_take_into<
    K1: TakeOrCloneInner<K2>,
    V: DrainMapTakeOrCloneInner<T>,
    T: Into<U>,
    K2,
    U,
>(p: (K1, V)) -> (r: (K2, U))
    ensures
        call_ensures(K1::take_or_clone_inner, (p.0,), r.0),
        exists|t: T|
            #![trigger call_ensures(V::drain_map_take_or_clone_inner, (p.1,), t)]
            call_ensures(V::drain_map_take_or_clone_inner, (p.1,), t) && (T::obeys_into_spec()
                ==> r.1 == t.into_spec()),
{
    let (k, v) = p;
    let take_key = <K1 as TakeOrCloneInner<K2>>::take_or_clone_inner;
    (take_key(k), drain_map_take_or_clone_inner_into::<V, T, U>(v))
}

/// The pair with its key kept and its value converted by `Into`.
pub fn pair_value_into<K, V1: Into<V2>, V2>(p: (K, V1)) -> (r: (K, V2))
    ensures
        r.0 == p.0,
        V1::obeys_into_spec() ==> r.1 == p.1.into_spec(),
{
    let (k, v) = p;
    (k, v.into())
}

/// The pair with its key kept and its value taken out of its `Arc` or cloned.
pub fn pair_value_take_or_clone<K, T: Clone>(p: (K, Arc<T>)) -> (r: (K, T))
    ensures
        r.0 == p.0,
        cloned::<T>(*p.1, r.1),
{
    let (k, v) = p;
    (k, take_or_clone_arc(v))
}

impl<Key1: Eq + Hash, Key2: Eq + Hash + From<Key1>, Value1, Value2: From<Value1>> DrainMapInto<
    HashMap<Key2, Value2>,
> for HashMap<Key1, Value1> {
    open spec fn drained_into(self, out: HashMap<Key2, Value2>) -> bool {
        obeys_key_model::<Key1>() && obeys_key_model::<Key2>() ==> entries_converted_by(
            self@,
            out@,
            pair_into::<Key1, Value1, Key2, Value2>,
        )
    }

    fn drain_map_into(self) -> HashMap<Key2, Value2> {
        map_entries(self, pair_into::<Key1, Value1, Key2, Value2>)
    }
}

impl<
    Key1: Eq + Hash + Clone,
    Value1: Clone,
    Key2: Eq + Hash + From<Key1>,
    Value2: From<Value1>,
> TakeOrCloneInnerDrainMapInto<HashMap<Key2, Value2>> for Arc<HashMap<Key1, Value1>> {
    open spec fn taken_drained_into(self, out: HashMap<Key2, Value2>) -> bool {
        exists|taken: HashMap<Key1, Value1>|
            #[trigger] cloned::<HashMap<Key1, Value1>>(*self, taken) && (obeys_key_model::<Key1>()
                && obeys_key_model::<Key2>() ==> entries_converted_by(
                taken@,
                out@,
                pair_into::<Key1, Value1, Key2, Value2>,
            ))
    }

    fn take_or_clone_inner_drain_map_into(self) -> HashMap<Key2, Value2> {
        let ghost shared = self;
        let taken = take_or_clone_arc(self);
        let ghost taken_map = taken;
        let r = map_entries(taken, pair_into::<Key1, Value1, Key2, Value2>);
        assert(cloned::<HashMap<Key1, Value1>>(*shared, taken_map));
        r
    }
}

impl<Key1: Eq + Hash + Into<Key2>, Key2: Eq + Hash, Value1, Value2: From<Value1>> DrainMapIntoInArc<
    HashMap<Key2, Arc<Value2>>,
> for HashMap<Key1, Value1> {
    open spec fn drained_into_in_arc(self, out: HashMap<Key2, Arc<Value2>>) -> bool {
        obeys_key_model::<Key1>() && obeys_key_model::<Key2>() ==> entries_converted_by(
            self@,
            out@,
            pair_into_in_arc::<Key1, Value1, Key2, Value2>,
        )
    }

    fn drain_map_into_in_arc(self) -> HashMap<Key2, Arc<Value2>> {
        map_entries(self, pair_into_in_arc::<Key1, Value1, Key2, Value2>)
    }
}

impl<
    Key1: Eq + Hash + TakeOrCloneInner<Key2>,
    Key2: Eq + Hash,
    Value1: TakeOrCloneInner<Value2>,
    Value2,
> DrainMapTakeOrCloneInner<HashMap<Key2, Value2>> for HashMap<Key1, Value1> {
    open spec fn drained_taken(self, out: HashMap<Key2, Value2>) -> bool {
        obeys_key_model::<Key1>() && obeys_key_model::<Key2>() ==> entries_converted_by(
            self@,
            out@,
            pair_take_or_clone::<Key1, Value1, Key2, Value2>,
        )
    }

    fn drain_map_take_or_clone_inner(self) -> HashMap<Key2, Value2> {
        map_entries(self, pair_take_or_clone::<Key1, Value1, Key2, Value2>)
    }
}

impl<
    Key1: Eq + Hash + Into<Key2>,
    Key2: Eq + Hash,
    Value: DrainMapInto<DrainMapIntoT>,
    DrainMapIntoT,
> DrainMapDrainMapInto<HashMap<Key2, DrainMapIntoT>, DrainMapIntoT> for HashMap<Key1, Value> {
    open spec fn drained_drained_into(self, out: HashMap<Key2, DrainMapIntoT>) -> bool {
        obeys_key_model::<Key1>() && obeys_key_model::<Key2>() ==> entries_converted_by(
            self@,
            out@,
            pair_drain_map_into::<Key1, Value, Key2, DrainMapIntoT>,
        )
    }

    fn drain_map_drain_map_into(self) -> HashMap<Key2, DrainMapIntoT> {
        map_entries(self, pair_drain_map_into::<Key1, Value, Key2, DrainMapIntoT>)
    }
}

impl<
    Key1: Eq + Hash + Into<Key2>,
    Key2: Eq + Hash,
    Value: DrainMapInto<DrainMapIntoT>,
    DrainMapIntoT,
> DrainMapDrainMapIntoInArc<HashMap<Key2, Arc<DrainMapIntoT>>, DrainMapIntoT> for HashMap<
    Key1,
    Value,
> {
    open spec fn drained_drained_into_in_arc(self, out: HashMap<Key2, Arc<DrainMapIntoT>>) -> bool {
        obeys_key_model::<Key1>() && obeys_key_model::<Key2>() ==> entries_converted_by(
            self@,
            out@,
            pair_drain_map_into_in_arc::<Key1, Value, Key2, DrainMapIntoT>,
        )
    }

    fn drain_map_drain_map_into_in_arc(self) -> HashMap<Key2, Arc<DrainMapIntoT>> {
        map_entries(self, pair_drain_map_into_in_arc::<Key1, Value, Key2, DrainMapIntoT>)
    }
}

impl<
    Key1: Eq + Hash + TakeOrCloneInnerBlanket<Key2>,
    Key2: Eq + Hash,
    Value: TakeOrCloneInnerDrainMapInto<TakeOrCloneInnerDrainMapIntoT>,
    TakeOrCloneInnerDrainMapIntoT,
> DrainMapTakeOrCloneInnerDrainMapInto<
    HashMap<Key2, TakeOrCloneInnerDrainMapIntoT>,
    TakeOrCloneInnerDrainMapIntoT,
> for HashMap<Key1, Value> {
    open spec fn drained_taken_drained_into(
        self,
        out: HashMap<Key2, TakeOrCloneInnerDrainMapIntoT>,
    ) -> bool {
        obeys_key_model::<Key1>() && obeys_key_model::<Key2>() ==> entries_converted_by(
            self@,
            out@,
            pair_blanket_take_or_clone_drain_map_into::<
                Key1,
                Value,
                Key2,
                TakeOrCloneInnerDrainMapIntoT,
            >,
        )
    }

    fn drain_map_take_or_clone_inner_drain_map_into(self) -> HashMap<
        Key2,
        TakeOrCloneInnerDrainMapIntoT,
    > {
        map_entries(
            self,
            pair_blanket_take_or_clone_drain_map_into::<
                Key1,
                Value,
                Key2,
                TakeOrCloneInnerDrainMapIntoT,
            >,
        )
    }
}

impl<
    Key1: Eq + Hash + TakeOrCloneInner<Key2>,
    Key2: Eq + Hash,
    Value: DrainMapTakeOrCloneInner<DrainMapTakeOrCloneInnerT>,
    DrainMapTakeOrCloneInnerT,
> DrainMapDrainMapTakeOrCloneInner<
    HashMap<Key2, DrainMapTakeOrCloneInnerT>,
    DrainMapTakeOrCloneInnerT,
> for HashMap<Key1, Value> {
    open spec fn drained_drained_taken(self, out: HashMap<Key2, DrainMapTakeOrCloneInnerT>) -> bool {
        obeys_key_model::<Key1>() && obeys_key_model::<Key2>() ==> entries_converted_by(
            self@,
            out@,
            pair_take_or_clone_drain_map_take::<Key1, Value, Key2, DrainMapTakeOrCloneInnerT>,
        )
    }

    fn drain_map_drain_map_take_or_clone_inner(self) -> HashMap<Key2, DrainMapTakeOrCloneInnerT> {
        map_entries(
            self,
            pair_take_or_clone_drain_map_take::<Key1, Value, Key2, DrainMapTakeOrCloneInnerT>,
        )
    }
}

impl<
    Key1: Eq + Hash + TakeOrCloneInner<Key2>,
    Key2: Eq + Hash,
    Value: DrainMapTakeOrCloneInner<DrainMapTakeOrCloneInnerT>,
    DrainMapTakeOrCloneInnerT: Into<IntoT>,
    IntoT,
> DrainMapDrainMapTakeOrCloneInnerInto<HashMap<Key2, IntoT>, DrainMapTakeOrCloneInnerT, IntoT> for HashMap<
    Key1,
    Value,
> {
    open spec fn drained_drained_taken_into(self, out: HashMap<Key2, IntoT>) -> bool {
        obeys_key_model::<Key1>() && obeys_key_model::<Key2>() ==> entries_converted_by(
            self@,
            out@,
            pair_take_or_clone_drain_map_take_into::<
                Key1,
                Value,
                DrainMapTakeOrCloneInnerT,
                Key2,
                IntoT,
            >,
        )
    }

    fn drain_map_drain_map_take_or_clone_inner(self) -> HashMap<Key2, IntoT> {
        map_entries(
            self,
            pair_take_or_clone_drain_map_take_into::<
                Key1,
                Value,
                DrainMapTakeOrCloneInnerT,
                Key2,
                IntoT,
            >,
        )
    }
}

impl<T1: Into<U>, T2: Eq + Hash, U> MapInto<T1, T2, U> for HashMap<T2, T1> {
    type Out = HashMap<T2, U>;

    open spec fn mapped_into(self, out: HashMap<T2, U>) -> bool {
        obeys_key_model::<T2>() ==> entries_converted_by(self@, out@, pair_value_into::<T2, T1, U>)
    }

    fn dmapi(self) -> HashMap<T2, U> {
        map_entries(self, pair_value_into::<T2, T1, U>)
    }
}

impl<T1: Into<U1>, T2: Into<U2> + Eq + Hash, U1, U2: Eq + Hash> MapInto2<T1, T2, U1, U2> for HashMap<
    T2,
    T1,
> {
    type Out = HashMap<U2, U1>;

    open spec fn mapped_into2(self, out: HashMap<U2, U1>) -> bool {
        obeys_key_model::<T2>() && obeys_key_model::<U2>() ==> entries_converted_by(
            self@,
            out@,
            pair_into::<T2, T1, U2, U1>,
        )
    }

    fn dmapi2(self) -> HashMap<U2, U1> {
        map_entries(self, pair_into::<T2, T1, U2, U1>)
    }
}

impl<T1: TakeOrCloneInner<Arc<T1>> + Clone, T2: Eq + Hash> MapTake<Arc<T1>, T2, T1> for HashMap<
    T2,
    Arc<T1>,
> {
    type Out = HashMap<T2, T1>;

    open spec fn mapped_taken(self, out: HashMap<T2, T1>) -> bool {
        obeys_key_model::<T2>() ==> entries_converted_by(
            self@,
            out@,
            pair_value_take_or_clone::<T2, T1>,
        )
    }

    fn dmapt(self) -> HashMap<T2, T1> {
        map_entries(self, pair_value_take_or_clone::<T2, T1>)
    }
}

} // verus!
