//! The rules by which a point is read back from its serialized forms: either
//! a map with the keys `x` and `y`, or a sequence of exactly two
//! coordinates, x first.
//!
//! The reader of the serialized input hands each entry or element to the
//! types here and acts on what they answer; a point is written out as the
//! sequence of its x and then its y coordinate.

use vstd::prelude::*;
use vstd::utf8::{
    decode_first_scalar, decode_utf8, encode_utf8, encode_utf8_decode_utf8, encode_utf8_valid_utf8,
    pop_first_scalar, valid_utf8,
};

use crate::point::Point;

verus! {

/// A coordinate field of a point.
#[derive(Clone, Copy, Debug, PartialEq, Eq, Structural, Hash)]
pub enum PointField {
    X,
    Y,
}

impl PointField {
    /// The field's name as a map key: `x` or `y`.
    pub fn name(self) -> (r: &'static str)
        ensures
            r@ == field_name(self),
            key_field(r@) == Some(self),
    {
        match self {
            PointField::X => {
                let r = "x";
                proof {
                    reveal_strlit("x");
                    assert(r@ =~= seq!['x']);
                }
                r
            },
            PointField::Y => {
                let r = "y";
                proof {
                    reveal_strlit("y");
                    assert(r@ =~= seq!['y']);
                    assert(seq!['y'][0] != seq!['x'][0]);
                }
                r
            },
        }
    }
}

/// Why a serialized point was refused.
#[derive(Clone, Debug, PartialEq, Eq)]
pub enum PointFormError {
    /// A map held a key other than `x` and `y`; the key is given.
    UnknownField(String),
    /// A map lacked the given coordinate.
    MissingField(PointField),
    /// A sequence did not hold exactly two elements: the number of elements
    /// present when this was found (0 or 1 for too few, 3 for too many).
    InvalidLength(usize),
}

/// The field that a map key names, if any: `x` and `y`, nothing else.
pub open spec fn key_field(key: Seq<char>) -> Option<PointField> {
    if key == seq!['x'] {
        Some(PointField::X)
    } else if key == seq!['y'] {
        Some(PointField::Y)
    } else {
        None
    }
}

/// The name of a field as a map key.
pub open spec fn field_name(field: PointField) -> Seq<char> {
    match field {
        PointField::X => seq!['x'],
        PointField::Y => seq!['y'],
    }
}

/// The fields after one more map entry: the named coordinate takes the
/// value, replacing any earlier one; `None` for a key that names no field.
pub open spec fn fields_accept<C>(fields: (Option<C>, Option<C>), key: Seq<char>, value: C) -> Option<
    (Option<C>, Option<C>),
> {
    match key_field(key) {
        Some(PointField::X) => Some((Some(value), fields.1)),
        Some(PointField::Y) => Some((fields.0, Some(value))),
        None => None,
    }
}

/// The point that the gathered fields make, or the first missing field
/// (x before y).
pub open spec fn fields_finish<C>(fields: (Option<C>, Option<C>)) -> Result<Point<C>, PointField> {
    match fields {
        (Some(x), Some(y)) => Ok(Point { x, y }),
        (None, _) => Err(PointField::X),
        (Some(_), None) => Err(PointField::Y),
    }
}

/// A one-character key `c` whose code is below 128 is exactly the key whose
/// UTF-8 encoding is the single byte `b == c`.
proof fn lemma_ascii_key(key: Seq<char>, c: char, b: u8)
    requires
        c as u32 == b as u32,
        b < 128,
    ensures
        (encode_utf8(key) == seq![b]) <==> (key == seq![c]),
{
    assert(((b as u32) & 0x7Fu32) as u8 == b) by (bit_vector)
        requires
            b < 128u8,
    ;
    if key == seq![c] {
        assert(key.drop_first() =~= Seq::<char>::empty());
        assert(encode_utf8(key.drop_first()) =~= Seq::<u8>::empty());
        assert(encode_utf8(key) =~= seq![b]);
    }
    if encode_utf8(key) == seq![b] {
        let bytes = seq![b];
        encode_utf8_decode_utf8(key);
        encode_utf8_valid_utf8(key);
        assert(valid_utf8(bytes));
        assert(pop_first_scalar(bytes) =~= Seq::<u8>::empty());
        assert(decode_utf8(pop_first_scalar(bytes)) =~= Seq::<char>::empty());
        assert(decode_first_scalar(bytes) == b as u32);
        assert(decode_utf8(bytes) =~= seq![(b as u32) as char] + Seq::<char>::empty());
        assert(key =~= seq![c]);
    }
}

/// The field of `key`, decided on its UTF-8 bytes.
fn field_of_key(key: &str) -> (r: Option<PointField>)
    ensures
        r == key_field(key@),
{
    let bytes = key.as_bytes();
    proof {
        lemma_ascii_key(key@, 'x', 120u8);
        lemma_ascii_key(key@, 'y', 121u8);
    }
    if bytes.len() == 1 && bytes[0] == 120u8 {
        assert(bytes@ =~= seq![120u8]);
        Some(PointField::X)
    } else if bytes.len() == 1 && bytes[0] == 121u8 {
        assert(bytes@ =~= seq![121u8]);
        Some(PointField::Y)
    } else {
        proof {
            if key@ == seq!['x'] {
                assert(bytes@ =~= seq![120u8]);
            }
            if key@ == seq!['y'] {
                assert(bytes@ =~= seq![121u8]);
            }
        }
        None
    }
}

/// The coordinates gathered so far from a map form of a point.
pub struct PointFields<C> {
    x: Option<C>,
    y: Option<C>,
}

impl<C> View for PointFields<C> {
    /// The x and y coordinates seen so far.
    type V = (Option<C>, Option<C>);

    closed spec fn view(&self) -> (Option<C>, Option<C>) {
        (self.x, self.y)
    }
}

impl<C> PointFields<C> {
    /// No coordinate seen yet.
    pub fn new() -> (r: PointFields<C>)
        ensures
            r@ == (None::<C>, None::<C>),
    {
        PointFields { x: None, y: None }
    }

    /// Takes one map entry. The key `x` or `y` sets that coordinate, a later
    /// entry for the same key replacing an earlier one; any other key is
    /// refused, naming the key, and leaves the fields as they were.
    pub fn accept(&mut self, key: &str, value: C) -> (r: Result<(), PointFormError>)
        ensures
            match fields_accept(old(self)@, key@, value) {
                Some(f) => r is Ok && final(self)@ == f,
                None => final(self)@ == old(self)@ && (r matches Err(
                    PointFormError::UnknownField(k),
                ) && k@ == key@),
            },
    {
        match field_of_key(key) {
            Some(PointField::X) => {
                self.x = Some(value);
                Ok(())
            },
            Some(PointField::Y) => {
                self.y = Some(value);
                Ok(())
            },
            None => Err(PointFormError::UnknownField(key.to_owned())),
        }
    }

    /// The point made of the gathered coordinates, or the first missing one
    /// (x before y).
    pub fn finish(self) -> (r: Result<Point<C>, PointFormError>)
        ensures
            match fields_finish(self@) {
                Ok(p) => r == Ok::<Point<C>, PointFormError>(p),
                Err(f) => r == Err::<Point<C>, PointFormError>(PointFormError::MissingField(f)),
            },
    {
        match (self.x, self.y) {
            (Some(x), Some(y)) => Ok(Point { x, y }),
            (None, _) => Err(PointFormError::MissingField(PointField::X)),
            (Some(_), None) => Err(PointFormError::MissingField(PointField::Y)),
        }
    }
}

/// The elements received so far from the sequence form of a point.
enum Received<C> {
    Nothing,
    First(C),
    Both(C, C),
}

/// The coordinates read so far from a sequence form of a point: x, then y,
/// then nothing more.
pub struct PointElements<C> {
    received: Received<C>,
}

impl<C> View for PointElements<C> {
    /// The coordinates received so far, in order (at most two).
    type V = Seq<C>;

    closed spec fn view(&self) -> Seq<C> {
        match self.received {
            Received::Nothing => seq![],
            Received::First(x) => seq![x],
            Received::Both(x, y) => seq![x, y],
        }
    }
}

/// The elements after one more element has been asked for: `Some` appends
/// it; `None` (the sequence ended) is refused with the number of elements
/// present.
pub open spec fn elements_accept<C>(received: Seq<C>, element: Option<C>) -> Result<Seq<C>, usize> {
    match element {
        Some(v) => Ok(received.push(v)),
        None => Err(received.len() as usize),
    }
}

/// The point that two received coordinates make, unless the sequence goes
/// on past them (refused as a sequence of 3).
pub open spec fn elements_finish<C>(received: Seq<C>, trailing: bool) -> Result<Point<C>, usize> {
    if trailing {
        Err(3)
    } else {
        Ok(Point { x: received[0], y: received[1] })
    }
}

impl<C> PointElements<C> {
    /// Nothing received yet.
    pub fn new() -> (r: PointElements<C>)
        ensures
            r@ == Seq::<C>::empty(),
    {
        PointElements { received: Received::Nothing }
    }

    /// Whether a coordinate is still to be read (fewer than two so far).
    pub fn needs_more(&self) -> (r: bool)
        ensures
            r == (self@.len() < 2),
            self@.len() <= 2,
    {
        match self.received {
            Received::Both(_, _) => false,
            _ => true,
        }
    }

    /// Takes the next element of the sequence, `None` when it has ended: the
    /// element becomes the next coordinate, or the end is refused with the
    /// number of elements present.
    pub fn accept(&mut self, element: Option<C>) -> (r: Result<(), PointFormError>)
        requires
            old(self)@.len() < 2,
        ensures
            match elements_accept(old(self)@, element) {
                Ok(s) => r is Ok && final(self)@ == s,
                Err(n) => r == Err::<(), PointFormError>(PointFormError::InvalidLength(n))
                    && final(self)@ == old(self)@,
            },
    {
        match element {
            Some(v) => {
                let mut received = Received::Nothing;
                std::mem::swap(&mut received, &mut self.received);
                match received {
                    Received::Nothing => {
                        self.received = Received::First(v);
                    },
                    Received::First(x) => {
                        self.received = Received::Both(x, v);
                    },
                    Received::Both(_, _) => {
                        assert(false);
                    },
                }
                assert(self@ =~= old(self)@.push(v));
                Ok(())
            },
            None => {
                let n: usize = match self.received {
                    Received::Nothing => 0,
                    _ => 1,
                };
                Err(PointFormError::InvalidLength(n))
            },
        }
    }

    /// The point of the two coordinates read, given whether the sequence
    /// holds a further element (it must not).
    pub fn finish(self, trailing: bool) -> (r: Result<Point<C>, PointFormError>)
        requires
            self@.len() == 2,
        ensures
            match elements_finish(self@, trailing) {
                Ok(p) => r == Ok::<Point<C>, PointFormError>(p),
                Err(n) => r == Err::<Point<C>, PointFormError>(PointFormError::InvalidLength(n)),
            },
    {
        if trailing {
            Err(PointFormError::InvalidLength(3))
        } else {
            match self.received {
                Received::Both(x, y) => Ok(Point { x, y }),
                _ => {
                    assert(false);
                    Err(PointFormError::InvalidLength(3))
                },
            }
        }
    }
}

/// A map entry names a coordinate only when its key is exactly the
/// one-character string `x` or `y`: the key `x` sets x and keeps y, the key
/// `y` sets y and keeps x, and every other key (`m`, `z`, `X`, `xy`, the
/// empty key, ...) is refused.
pub proof fn law_only_x_and_y_keys<C>(fields: (Option<C>, Option<C>), key: Seq<char>, value: C)
    ensures
        fields_accept(fields, key, value) is Some <==> (key =~= seq!['x'] || key =~= seq!['y']),
        key =~= seq!['x'] ==> fields_accept(fields, key, value) == Some((Some(value), fields.1)),
        key =~= seq!['y'] ==> fields_accept(fields, key, value) == Some((fields.0, Some(value))),
{
    assert(seq!['y'][0] != seq!['x'][0]);
    if key =~= seq!['x'] {
        assert(key == seq!['x']);
    }
    if key =~= seq!['y'] {
        assert(key == seq!['y']);
        assert(key != seq!['x']);
    }
}

/// The names of the coordinates as map keys are `x` and `y`, and each
/// name is read back as its own coordinate.
pub proof fn law_field_names()
    ensures
        field_name(PointField::X) =~= seq!['x'],
        field_name(PointField::Y) =~= seq!['y'],
        key_field(seq!['x']) == Some(PointField::X),
        key_field(seq!['y']) == Some(PointField::Y),
{
    assert(seq!['y'][0] != seq!['x'][0]);
    assert(seq!['y'] != seq!['x']);
}

/// A map form read entry by entry from nothing: the fields gathered, or the
/// first key that names no field.
pub open spec fn read_fields<C>(entries: Seq<(Seq<char>, C)>) -> Result<
    (Option<C>, Option<C>),
    Seq<char>,
>
    decreases entries.len(),
{
    if entries.len() == 0 {
        Ok((None, None))
    } else {
        match read_fields(entries.drop_last()) {
            Err(k) => Err(k),
            Ok(f) => match fields_accept(f, entries.last().0, entries.last().1) {
                Some(g) => Ok(g),
                None => Err(entries.last().0),
            },
        }
    }
}

/// The value of the last entry whose key names `field`, if any.
pub open spec fn last_value<C>(entries: Seq<(Seq<char>, C)>, field: PointField) -> Option<C>
    decreases entries.len(),
{
    if entries.len() == 0 {
        None
    } else if key_field(entries.last().0) == Some(field) {
        Some(entries.last().1)
    } else {
        last_value(entries.drop_last(), field)
    }
}

/// A sequence form read as a reader asks for it: a first coordinate, a
/// second one, then whether anything follows; the point, or the refused
/// length.
pub open spec fn read_sequence<C>(elements: Seq<C>) -> Result<Point<C>, usize> {
    let first = if elements.len() > 0 { Some(elements[0]) } else { None };
    match elements_accept(Seq::<C>::empty(), first) {
        Err(n) => Err(n),
        Ok(one) => {
            let second = if elements.len() > 1 { Some(elements[1]) } else { None };
            match elements_accept(one, second) {
                Err(n) => Err(n),
                Ok(two) => elements_finish(two, elements.len() > 2),
            }
        },
    }
}

/// Reading a map whose keys all name a field gathers, for each coordinate,
/// the value of its last entry: the order of the entries matters only
/// between entries for the same coordinate, and a later one wins.
pub proof fn law_map_last_entry_wins<C>(entries: Seq<(Seq<char>, C)>)
    requires
        forall|i: int| 0 <= i < entries.len() ==> #[trigger] key_field(entries[i].0) is Some,
    ensures
        read_fields(entries) == Ok::<(Option<C>, Option<C>), Seq<char>>(
            (last_value(entries, PointField::X), last_value(entries, PointField::Y)),
        ),
    decreases entries.len(),
{
    if entries.len() > 0 {
        let rest = entries.drop_last();
        assert forall|i: int| 0 <= i < rest.len() implies #[trigger] key_field(rest[i].0) is Some by {
            assert(rest[i] == entries[i]);
        }
        law_map_last_entry_wins(rest);
        assert(key_field(entries[entries.len() - 1].0) is Some);
    }
}

/// Reading a map is refused at its first entry whose key names no field,
/// and the refusal names that key.
pub proof fn law_map_first_unknown_key<C>(entries: Seq<(Seq<char>, C)>, i: int)
    requires
        0 <= i < entries.len(),
        key_field(entries[i].0) is None,
        forall|j: int| 0 <= j < i ==> #[trigger] key_field(entries[j].0) is Some,
    ensures
        read_fields(entries) == Err::<(Option<C>, Option<C>), Seq<char>>(entries[i].0),
    decreases entries.len(),
{
    let rest = entries.drop_last();
    if i == entries.len() - 1 {
        assert forall|j: int| 0 <= j < rest.len() implies #[trigger] key_field(rest[j].0) is Some by {
            assert(rest[j] == entries[j]);
        }
        law_map_last_entry_wins(rest);
    } else {
        assert(rest[i] == entries[i]);
        assert forall|j: int| 0 <= j < i implies #[trigger] key_field(rest[j].0) is Some by {
            assert(rest[j] == entries[j]);
        }
        law_map_first_unknown_key(rest, i);
    }
}

/// A map whose keys all name a field makes the point of the last `x` and
/// the last `y`; without an `x` it is refused as missing `x`, else without a
/// `y` as missing `y`.
pub proof fn law_map_point<C>(entries: Seq<(Seq<char>, C)>)
    requires
        forall|i: int| 0 <= i < entries.len() ==> #[trigger] key_field(entries[i].0) is Some,
    ensures
        read_fields(entries) matches Ok(f) && fields_finish(f) == match (
            last_value(entries, PointField::X),
            last_value(entries, PointField::Y),
        ) {
            (Some(x), Some(y)) => Ok::<Point<C>, PointField>(Point { x, y }),
            (None, _) => Err::<Point<C>, PointField>(PointField::X),
            (Some(_), None) => Err::<Point<C>, PointField>(PointField::Y),
        },
{
    law_map_last_entry_wins(entries);
}

/// A sequence form is read into a point exactly when it holds two
/// elements, x then y; a shorter one is refused with its length, a longer
/// one as a sequence of 3.
pub proof fn law_sequence_two_elements<C>(elements: Seq<C>)
    ensures
        read_sequence(elements) == if elements.len() == 2 {
            Ok::<Point<C>, usize>(Point { x: elements[0], y: elements[1] })
        } else if elements.len() < 2 {
            Err::<Point<C>, usize>(elements.len() as usize)
        } else {
            Err::<Point<C>, usize>(3)
        },
{
    if elements.len() >= 2 {
        let two = Seq::<C>::empty().push(elements[0]).push(elements[1]);
        assert(two[0] == elements[0] && two[1] == elements[1]);
    }
}

/// A point written out as its x and then its y coordinate reads back as
/// the same point.
pub proof fn law_sequence_round_trip<C>(p: Point<C>)
    ensures
        read_sequence(seq![p.x, p.y]) == Ok::<Point<C>, usize>(p),
{
    law_sequence_two_elements(seq![p.x, p.y]);
}

} // verus!
