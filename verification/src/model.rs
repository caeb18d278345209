//! The mathematical value of a runtime type.
//!
//! Every contract of the crate speaks of values: a `String` is its sequence of
//! characters, a `Vec` the sequence of its elements' values, a record the
//! record of its fields' values. [`Model`] gives each type that value and a
//! copy that keeps it.
use vstd::prelude::*;

verus! {

/// A type with a mathematical value.
pub trait Model: Sized {
    /// What a value of the type is, for contracts.
    type V;

    spec fn v(&self) -> Self::V;

    /// A copy with the same value.
    fn dup(&self) -> (r: Self)
        ensures
            r.v() == self.v(),
    ;
}

/// A type whose values can be told apart at run time.
pub trait Same: Model {
    fn same(&self, other: &Self) -> (r: bool)
        ensures
            r == (self.v() == other.v()),
    ;
}

impl Model for String {
    type V = Seq<char>;

    open spec fn v(&self) -> Seq<char> {
        self@
    }

    fn dup(&self) -> (r: String) {
        self.clone()
    }
}

impl Same for String {
    fn same(&self, other: &String) -> (r: bool) {
        *self == *other
    }
}

impl Model for bool {
    type V = bool;

    open spec fn v(&self) -> bool {
        *self
    }

    fn dup(&self) -> (r: bool) {
        *self
    }
}

impl Same for bool {
    fn same(&self, other: &bool) -> (r: bool) {
        *self == *other
    }
}

impl Model for u8 {
    type V = u8;

    open spec fn v(&self) -> u8 {
        *self
    }

    fn dup(&self) -> (r: u8) {
        *self
    }
}

impl Model for u32 {
    type V = u32;

    open spec fn v(&self) -> u32 {
        *self
    }

    fn dup(&self) -> (r: u32) {
        *self
    }
}

impl Same for u32 {
    fn same(&self, other: &u32) -> (r: bool) {
        *self == *other
    }
}

impl Model for u64 {
    type V = u64;

    open spec fn v(&self) -> u64 {
        *self
    }

    fn dup(&self) -> (r: u64) {
        *self
    }
}

impl Model for usize {
    type V = usize;

    open spec fn v(&self) -> usize {
        *self
    }

    fn dup(&self) -> (r: usize) {
        *self
    }
}

impl Model for i128 {
    type V = i128;

    open spec fn v(&self) -> i128 {
        *self
    }

    fn dup(&self) -> (r: i128) {
        *self
    }
}

impl<T: Model> Model for Option<T> {
    type V = Option<T::V>;

    open spec fn v(&self) -> Option<T::V> {
        match self {
            Some(x) => Some(x.v()),
            None => None,
        }
    }

    fn dup(&self) -> (r: Option<T>) {
        match self {
            Some(x) => Some(x.dup()),
            None => None,
        }
    }
}

impl<T: Same> Same for Option<T> {
    fn same(&self, other: &Option<T>) -> (r: bool) {
        match (self, other) {
            (Some(a), Some(b)) => a.same(b),
            (None, None) => true,
            _ => false,
        }
    }
}

impl Model for () {
    type V = ();

    open spec fn v(&self) -> () {
        ()
    }

    fn dup(&self) -> (r: ()) {
    }
}

impl<T: Model, E: Model> Model for Result<T, E> {
    type V = Result<T::V, E::V>;

    open spec fn v(&self) -> Result<T::V, E::V> {
        match self {
            Ok(x) => Ok(x.v()),
            Err(e) => Err(e.v()),
        }
    }

    fn dup(&self) -> (r: Result<T, E>) {
        match self {
            Ok(x) => Ok(x.dup()),
            Err(e) => Err(e.dup()),
        }
    }
}

impl<T: Model> Model for Box<T> {
    type V = T::V;

    open spec fn v(&self) -> T::V {
        (**self).v()
    }

    fn dup(&self) -> (r: Box<T>) {
        Box::new((**self).dup())
    }
}

impl<T: Same> Same for Box<T> {
    fn same(&self, other: &Box<T>) -> (r: bool) {
        (**self).same(&**other)
    }
}

/// The values of a sequence's elements.
pub open spec fn values<T: Model>(s: Seq<T>) -> Seq<T::V> {
    Seq::new(s.len(), |i: int| s[i].v())
}

/// The values of borrowed elements.
pub open spec fn seen<T: Model>(s: Seq<&T>) -> Seq<T::V> {
    Seq::new(s.len(), |i: int| s[i].v())
}

/// Appends one borrowed element.
pub fn append_ref<'a, T: Model>(items: &mut Vec<&'a T>, x: &'a T)
    ensures
        seen(final(items)@) == seen(old(items)@).push(x.v()),
{
    items.push(x);
    assert(seen(items@) =~= seen(old(items)@).push(x.v()));
}

impl<T: Model> Model for Vec<T> {
    type V = Seq<T::V>;

    open spec fn v(&self) -> Seq<T::V> {
        values(self@)
    }

    fn dup(&self) -> (r: Vec<T>) {
        assert(self.v().take(self@.len() as int) =~= self.v());
        dup_prefix(self, self.len())
    }
}

impl<T: Same> Same for Vec<T> {
    fn same(&self, other: &Vec<T>) -> (r: bool) {
        if self.len() != other.len() {
            assert(self.v().len() != other.v().len());
            return false;
        }
        let mut i: usize = 0;
        while i < self.len()
            invariant
                i <= self.len(),
                self.len() == other.len(),
                forall|j: int| 0 <= j < i ==> self.v()[j] == other.v()[j],
            decreases self.len() - i,
        {
            if !self[i].same(&other[i]) {
                assert(self.v()[i as int] != other.v()[i as int]);
                return false;
            }
            i = i + 1;
        }
        assert(self.v() =~= other.v());
        true
    }
}

/// Copies of the first `n` elements.
pub fn dup_prefix<T: Model>(items: &Vec<T>, n: usize) -> (r: Vec<T>)
    requires
        n <= items@.len(),
    ensures
        r.v() == items.v().take(n as int),
{
    let mut r: Vec<T> = Vec::new();
    let mut i: usize = 0;
    while i < n
        invariant
            i <= n <= items@.len(),
            r@.len() == i,
            forall|j: int| 0 <= j < i ==> (#[trigger] r@[j]).v() == items@[j].v(),
        decreases n - i,
    {
        r.push(items[i].dup());
        i = i + 1;
    }
    assert(r.v() =~= items.v().take(n as int));
    r
}

/// Appends one element.
pub fn append_one<T: Model>(items: &mut Vec<T>, x: T)
    ensures
        final(items).v() == old(items).v().push(x.v()),
{
    items.push(x);
    assert(items.v() =~= old(items).v().push(x.v()));
}

/// Replaces the element at `i`.
pub fn put<T: Model>(items: &mut Vec<T>, i: usize, x: T)
    requires
        i < old(items)@.len(),
    ensures
        final(items).v() == old(items).v().update(i as int, x.v()),
{
    items.set(i, x);
    assert(items.v() =~= old(items).v().update(i as int, x.v()));
}

/// A list of one element.
pub fn one<T: Model>(x: T) -> (r: Vec<T>)
    ensures
        r.v() == seq![x.v()],
{
    let mut r: Vec<T> = Vec::new();
    r.push(x);
    assert(r.v() =~= seq![x.v()]);
    r
}

/// The empty list.
pub fn none<T: Model>() -> (r: Vec<T>)
    ensures
        r.v() == Seq::<T::V>::empty(),
{
    let r: Vec<T> = Vec::new();
    assert(r.v() =~= Seq::<T::V>::empty());
    r
}

/// Moves the elements of `more` behind those of `items`.
pub fn extend<T: Model>(items: &mut Vec<T>, more: Vec<T>)
    ensures
        final(items).v() == old(items).v() + more.v(),
{
    let mut more = more;
    let ghost tail = more.v();
    items.append(&mut more);
    assert(items.v() =~= old(items).v() + tail);
}

/// What `f` makes of each element of `s`, without those it leaves out.
pub open spec fn collect<A, B>(s: Seq<A>, f: spec_fn(A) -> Option<B>) -> Seq<B>
    decreases s.len(),
{
    if s.len() == 0 {
        Seq::empty()
    } else {
        match f(s.last()) {
            Some(b) => collect(s.drop_last(), f).push(b),
            None => collect(s.drop_last(), f),
        }
    }
}

/// Collecting one element more.
pub proof fn lemma_collect_step<A, B>(s: Seq<A>, f: spec_fn(A) -> Option<B>, i: int)
    requires
        0 <= i < s.len(),
    ensures
        collect(s.take(i + 1), f) == (match f(s[i]) {
            Some(b) => collect(s.take(i), f).push(b),
            None => collect(s.take(i), f),
        }),
{
    assert(s.take(i + 1).drop_last() =~= s.take(i));
    assert(s.take(i + 1).last() == s[i]);
}

/// Where the first element that meets `p` stands.
pub open spec fn position<A>(s: Seq<A>, p: spec_fn(A) -> bool) -> Option<int>
    decreases s.len(),
{
    if s.len() == 0 {
        None
    } else {
        match position(s.drop_last(), p) {
            Some(i) => Some(i),
            None => if p(s.last()) {
                Some(s.len() - 1)
            } else {
                None
            },
        }
    }
}

/// What `position` finds: the first element that meets `p`, if there is one.
pub proof fn lemma_position<A>(s: Seq<A>, p: spec_fn(A) -> bool)
    ensures
        match position(s, p) {
            Some(i) => 0 <= i < s.len() && p(s[i]) && forall|j: int| 0 <= j < i ==> !p(#[trigger] s[j]),
            None => forall|j: int| 0 <= j < s.len() ==> !p(#[trigger] s[j]),
        },
    decreases s.len(),
{
    if s.len() > 0 {
        lemma_position(s.drop_last(), p);
        match position(s.drop_last(), p) {
            Some(i) => {
                assert(s.drop_last()[i] == s[i]);
                assert forall|j: int| 0 <= j < i implies !p(#[trigger] s[j]) by {
                    assert(s.drop_last()[j] == s[j]);
                }
            },
            None => {
                assert forall|j: int| 0 <= j < s.len() - 1 implies !p(#[trigger] s[j]) by {
                    assert(s.drop_last()[j] == s[j]);
                }
            },
        }
    }
}

/// The first element that meets `p` is where `position` says.
pub proof fn lemma_position_is<A>(s: Seq<A>, p: spec_fn(A) -> bool, i: int)
    requires
        0 <= i < s.len(),
        p(s[i]),
        forall|j: int| 0 <= j < i ==> !p(#[trigger] s[j]),
    ensures
        position(s, p) == Some(i),
{
    lemma_position(s, p);
}

/// The first element that meets `p`.
pub open spec fn first<A>(s: Seq<A>, p: spec_fn(A) -> bool) -> Option<A> {
    match position(s, p) {
        Some(i) => Some(s[i]),
        None => None,
    }
}

/// Whether some element meets `p`.
pub open spec fn any<A>(s: Seq<A>, p: spec_fn(A) -> bool) -> bool {
    exists|i: int| 0 <= i < s.len() && p(#[trigger] s[i])
}

/// The value of an optional text.
pub open spec fn text_of(o: Option<&str>) -> Option<Seq<char>> {
    match o {
        Some(s) => Some(s@),
        None => None,
    }
}

/// The last element that meets `p`.
pub open spec fn last_of<A>(s: Seq<A>, p: spec_fn(A) -> bool) -> Option<A>
    decreases s.len(),
{
    if s.len() == 0 {
        None
    } else if p(s.last()) {
        Some(s.last())
    } else {
        last_of(s.drop_last(), p)
    }
}

/// Borrows an optional text.
pub fn as_text(o: &Option<String>) -> (r: Option<&str>)
    ensures
        text_of(r) == o.v(),
{
    match o {
        Some(s) => Some(s.as_str()),
        None => None,
    }
}

/// Copies an optional text.
pub fn own_text(o: Option<&str>) -> (r: Option<String>)
    ensures
        r.v() == text_of(o),
{
    match o {
        Some(s) => Some(s.to_owned()),
        None => None,
    }
}

/// Puts one before the others.
pub fn put_first<T: Model>(items: &mut Vec<T>, item: T)
    ensures
        final(items).v() == seq![item.v()] + old(items).v(),
{
    items.insert(0, item);
    assert(items.v() =~= seq![item.v()] + old(items).v());
}

/// Removes the element at `i`.
pub fn take_out<T: Model>(items: &mut Vec<T>, i: usize) -> (r: T)
    requires
        i < old(items)@.len(),
    ensures
        final(items).v() == old(items).v().remove(i as int),
        r.v() == old(items).v()[i as int],
{
    let r = items.remove(i);
    assert(items.v() =~= old(items).v().remove(i as int));
    r
}

/// Whether an optional text is this one.
pub fn is_text(a: &Option<String>, b: &str) -> (r: bool)
    ensures
        r == (a.v() == Some(b@)),
{
    match a {
        Some(a) => a.as_str().to_owned() == b.to_owned(),
        None => false,
    }
}

} // verus!
