use crate::error::{ErrorKind, SteelErr};
use crate::value::{chars_of, SteelString, SteelVal};
use vstd::predicate::Predicate;
use std::rc::Rc;
use vstd::cell::invcell::InvCell;
use vstd::prelude::*;

verus! {

/// The characters of a string and how many of them were yielded.
pub struct Chunks {
    pub chars: Vec<char>,
    pub pos: usize,
}

impl Chunks {
    pub fn new(s: SteelString) -> (r: Chunks)
        ensures
            r.chars@ == s@,
            r.pos == 0,
    {
        Chunks { chars: chars_of(s.as_str()), pos: 0 }
    }
}

/// A cursor over a built-in container: the container's elements and how
/// many of them were yielded.
pub enum BuiltInDataStructureIterator {
    List(Rc<Vec<SteelVal>>, usize),
    Vector(Rc<Vec<SteelVal>>, usize),
    HashSet(Rc<Vec<SteelVal>>, usize),
    /// Yields each entry as a two-element list of key and value.
    HashMap(Rc<Vec<(SteelVal, SteelVal)>>, usize),
    /// Yields each character.
    String(Chunks),
    /// Yields values that host code supplied.
    Opaque(Vec<SteelVal>, usize),
}

/// How many items the cursor yields in all.
pub open spec fn cursor_len(it: BuiltInDataStructureIterator) -> int {
    match it {
        BuiltInDataStructureIterator::List(l, _) => l@.len() as int,
        BuiltInDataStructureIterator::Vector(l, _) => l@.len() as int,
        BuiltInDataStructureIterator::HashSet(l, _) => l@.len() as int,
        BuiltInDataStructureIterator::HashMap(m, _) => m@.len() as int,
        BuiltInDataStructureIterator::String(c) => c.chars@.len() as int,
        BuiltInDataStructureIterator::Opaque(l, _) => l@.len() as int,
    }
}

/// How many items the cursor has yielded.
pub open spec fn cursor_pos(it: BuiltInDataStructureIterator) -> int {
    match it {
        BuiltInDataStructureIterator::List(_, p) => p as int,
        BuiltInDataStructureIterator::Vector(_, p) => p as int,
        BuiltInDataStructureIterator::HashSet(_, p) => p as int,
        BuiltInDataStructureIterator::HashMap(_, p) => p as int,
        BuiltInDataStructureIterator::String(c) => c.pos as int,
        BuiltInDataStructureIterator::Opaque(_, p) => p as int,
    }
}

/// The same cursor moved to position `p`.
pub open spec fn moved_to(it: BuiltInDataStructureIterator, p: usize) -> BuiltInDataStructureIterator {
    match it {
        BuiltInDataStructureIterator::List(l, _) => BuiltInDataStructureIterator::List(l, p),
        BuiltInDataStructureIterator::Vector(l, _) => BuiltInDataStructureIterator::Vector(l, p),
        BuiltInDataStructureIterator::HashSet(l, _) => BuiltInDataStructureIterator::HashSet(l, p),
        BuiltInDataStructureIterator::HashMap(m, _) => BuiltInDataStructureIterator::HashMap(m, p),
        BuiltInDataStructureIterator::String(c) => BuiltInDataStructureIterator::String(
            Chunks { chars: c.chars, pos: p },
        ),
        BuiltInDataStructureIterator::Opaque(l, _) => BuiltInDataStructureIterator::Opaque(l, p),
    }
}

/// `v` is the item at index `i` of the cursor's container.
pub open spec fn item_at(it: BuiltInDataStructureIterator, i: int, v: SteelVal) -> bool {
    match it {
        BuiltInDataStructureIterator::List(l, _) => v == l@[i],
        BuiltInDataStructureIterator::Vector(l, _) => v == l@[i],
        BuiltInDataStructureIterator::HashSet(l, _) => v == l@[i],
        BuiltInDataStructureIterator::HashMap(m, _) => v matches SteelVal::ListV(pair) && pair@
            == seq![m@[i].0, m@[i].1],
        BuiltInDataStructureIterator::String(c) => v == SteelVal::CharV(c.chars@[i]),
        BuiltInDataStructureIterator::Opaque(l, _) => v == l@[i],
    }
}

fn advance(l: &Vec<SteelVal>, p: &mut usize) -> (r: Option<SteelVal>)
    ensures
        *old(p) < l@.len() ==> r == Some(l@[*old(p) as int]) && *final(p) == *old(p) + 1,
        *old(p) >= l@.len() ==> r is None && *final(p) == *old(p),
{
    if *p < l.len() {
        let v = l[*p].share();
        *p = *p + 1;
        Some(v)
    } else {
        None
    }
}

impl BuiltInDataStructureIterator {
    /// The next item, or `None` once every item was yielded; a cursor at its
    /// end stays there.
    pub fn next(&mut self) -> (r: Option<SteelVal>)
        ensures
            cursor_pos(*old(self)) < cursor_len(*old(self)) ==> {
                &&& r matches Some(v) && item_at(*old(self), cursor_pos(*old(self)), v)
                &&& *final(self) == moved_to(*old(self), (cursor_pos(*old(self)) + 1) as usize)
            },
            cursor_pos(*old(self)) >= cursor_len(*old(self)) ==> r is None && *final(self) == *old(
                self,
            ),
    {
        match self {
            BuiltInDataStructureIterator::List(l, p) => advance(l, p),
            BuiltInDataStructureIterator::Vector(l, p) => advance(l, p),
            BuiltInDataStructureIterator::HashSet(l, p) => advance(l, p),
            BuiltInDataStructureIterator::Opaque(l, p) => advance(l, p),
            BuiltInDataStructureIterator::HashMap(m, p) => {
                if *p < m.len() {
                    let pair = vec![m[*p].0.share(), m[*p].1.share()];
                    proof {
                        assert(pair@ =~= seq![m@[*p as int].0, m@[*p as int].1]);
                    }
                    *p = *p + 1;
                    Some(SteelVal::ListV(Rc::new(pair)))
                } else {
                    None
                }
            },
            BuiltInDataStructureIterator::String(c) => {
                if c.pos < c.chars.len() {
                    let ch = c.chars[c.pos];
                    c.pos = c.pos + 1;
                    Some(SteelVal::CharV(ch))
                } else {
                    None
                }
            },
        }
    }

    /// A cursor over values that host code supplied.
    pub fn from_iterator(values: Vec<SteelVal>) -> (r: BuiltInDataStructureIterator)
        ensures
            r == BuiltInDataStructureIterator::Opaque(values, 0),
    {
        BuiltInDataStructureIterator::Opaque(values, 0)
    }

    /// The cursor as a value: a shared cell that every clone advances.
    pub fn into_boxed_iterator(self) -> (r: SteelVal)
        ensures
            r matches SteelVal::BoxedIterator(c) && c.predicate().start@ == moved_to(self, 0),
    {
        let ghost start = moved_to(self, 0);
        SteelVal::BoxedIterator(Rc::new(InvCell::new(self, Ghost(CursorFrom { start: Ghost(start) }))))
    }
}

/// What the cell of an iterator value always holds: the cursor it started
/// as, moved on to some position, or, for the moment that a step takes the
/// cursor out, an empty one.
pub struct CursorFrom {
    pub start: Ghost<BuiltInDataStructureIterator>,
}

impl Predicate<BuiltInDataStructureIterator> for CursorFrom {
    open spec fn predicate(&self, it: BuiltInDataStructureIterator) -> bool {
        (it is Opaque && cursor_len(it) == 0) || it == moved_to(self.start@, cursor_pos(it) as usize)
    }
}

proof fn lemma_moved_twice(it: BuiltInDataStructureIterator, p: usize, q: usize)
    ensures
        moved_to(moved_to(it, p), q) == moved_to(it, q),
        cursor_len(moved_to(it, p)) == cursor_len(it),
        cursor_pos(moved_to(it, p)) == p,
        forall|i: int, v: SteelVal| item_at(moved_to(it, p), i, v) == item_at(it, i, v),
{
}

/// The containers that can be iterated.
pub open spec fn iterable(v: SteelVal) -> bool {
    v is ListV || v is VectorV || v is StringV || v is HashSetV || v is HashMapV
}

/// A fresh cursor over the elements of `v`.
pub open spec fn cursor_over(v: SteelVal, it: BuiltInDataStructureIterator) -> bool {
    match v {
        SteelVal::ListV(l) => it == BuiltInDataStructureIterator::List(l, 0),
        SteelVal::VectorV(l) => it == BuiltInDataStructureIterator::Vector(l, 0),
        SteelVal::HashSetV(l) => it == BuiltInDataStructureIterator::HashSet(l, 0),
        SteelVal::HashMapV(m) => it == BuiltInDataStructureIterator::HashMap(m, 0),
        SteelVal::StringV(s) => it matches BuiltInDataStructureIterator::String(c) && c.chars@ == s@
            && c.pos == 0,
        _ => false,
    }
}

/// A cursor at the start of a list, vector, string, set or map.
pub fn into_cursor(val: SteelVal) -> (r: BuiltInDataStructureIterator)
    requires
        iterable(val),
    ensures
        cursor_over(val, r),
{
    match val {
        SteelVal::ListV(l) => BuiltInDataStructureIterator::List(l, 0),
        SteelVal::VectorV(v) => BuiltInDataStructureIterator::Vector(v, 0),
        SteelVal::StringV(s) => BuiltInDataStructureIterator::String(Chunks::new(s)),
        SteelVal::HashSetV(s) => BuiltInDataStructureIterator::HashSet(s, 0),
        SteelVal::HashMapV(m) => BuiltInDataStructureIterator::HashMap(m, 0),
        _ => BuiltInDataStructureIterator::Opaque(Vec::new(), 0),
    }
}

/// An iterator value over a list, vector, string, set or map.
pub fn value_into_iterator(val: SteelVal) -> (r: SteelVal)
    requires
        iterable(val),
    ensures
        r matches SteelVal::BoxedIterator(c) && cursor_over(val, c.predicate().start@),
{
    let it = into_cursor(val);
    proof {
        lemma_moved_twice(it, 0, 0);
        assert(moved_to(it, 0) == it);
    }
    it.into_boxed_iterator()
}

/// Advances the iterator value `args[0]` by one: its next item, or void once
/// it is exhausted. Any other value is a type mismatch. What comes back is
/// void or an item of the container the iterator was made over.
pub fn iterator_next(args: &[SteelVal]) -> (r: Result<SteelVal, SteelErr>)
    requires
        args@.len() > 0,
    ensures
        args@[0] is BoxedIterator <==> r is Ok,
        args@[0] matches SteelVal::BoxedIterator(c) ==> r matches Ok(v) && (v == SteelVal::Void
            || exists|i: int|
            0 <= i < cursor_len(c.predicate().start@) && item_at(c.predicate().start@, i, v)),
        args@[0] matches SteelVal::BoxedIterator(c) && cursor_len(c.predicate().start@) == 0 ==> r
            == Ok::<SteelVal, SteelErr>(SteelVal::Void),
        r matches Err(e) ==> e.kind == ErrorKind::TypeMismatch,
{
    match &args[0] {
        SteelVal::BoxedIterator(b) => {
            let mut it = b.replace(BuiltInDataStructureIterator::Opaque(Vec::new(), 0));
            let ghost before = it;
            let ghost start = b.predicate().start@;
            let r = it.next();
            proof {
                if !(before is Opaque && cursor_len(before) == 0) {
                    lemma_moved_twice(start, cursor_pos(before) as usize, cursor_pos(before) as usize);
                    if cursor_pos(before) < cursor_len(before) {
                        lemma_moved_twice(
                            start,
                            cursor_pos(before) as usize,
                            (cursor_pos(before) + 1) as usize,
                        );
                    }
                }
            }
            b.replace(it);
            match r {
                Some(v) => {
                    proof {
                        assert(item_at(start, cursor_pos(before), v));
                    }
                    Ok(v)
                },
                None => Ok(SteelVal::Void),
            }
        },
        _ => Err(SteelErr::from_str(ErrorKind::TypeMismatch, "Unexpected argument")),
    }
}

} // verus!
