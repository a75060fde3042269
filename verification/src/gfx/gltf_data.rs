//! Decoding of glTF accessor data: the little-endian components stored in a binary
//! buffer, read as mesh indexes or as vertex attribute scalars.

use vstd::prelude::*;
use super::quad::Index;

verus! {

/// The data type of an accessor's components.
#[derive(Copy, Clone, Debug, PartialEq, Eq, Structural)]
pub enum ComponentType {
    I8,
    U8,
    I16,
    U16,
    U32,
    F32,
}

/// One component as stored. A 32-bit float is kept as its bit pattern.
#[derive(Copy, Clone, Debug, PartialEq, Eq, Structural)]
pub enum ComponentValue {
    I8(i8),
    U8(u8),
    I16(i16),
    U16(u16),
    U32(u32),
    F32Bits(u32),
}

/// The bytes a component of type `t` takes.
pub open spec fn component_size(t: ComponentType) -> nat {
    match t {
        ComponentType::I8 | ComponentType::U8 => 1,
        ComponentType::I16 | ComponentType::U16 => 2,
        ComponentType::U32 | ComponentType::F32 => 4,
    }
}

/// The unsigned little-endian number in `bytes[at..at + n]`.
pub open spec fn le_value(bytes: Seq<u8>, at: int, n: nat) -> nat
    decreases n,
{
    if n == 0 {
        0
    } else {
        bytes[at] as nat + 256 * le_value(bytes, at + 1, (n - 1) as nat)
    }
}

/// The component of type `t` stored little-endian at `bytes[at..]`.
pub open spec fn component_at(bytes: Seq<u8>, at: int, t: ComponentType) -> ComponentValue {
    match t {
        ComponentType::I8 => ComponentValue::I8(bytes[at] as i8),
        ComponentType::U8 => ComponentValue::U8(bytes[at]),
        ComponentType::I16 => ComponentValue::I16(le_value(bytes, at, 2) as i16),
        ComponentType::U16 => ComponentValue::U16(le_value(bytes, at, 2) as u16),
        ComponentType::U32 => ComponentValue::U32(le_value(bytes, at, 4) as u32),
        ComponentType::F32 => ComponentValue::F32Bits(le_value(bytes, at, 4) as u32),
    }
}

/// The bytes a component of type `t` takes.
pub fn component_bytes(t: ComponentType) -> (n: usize)
    ensures
        n == component_size(t),
{
    match t {
        ComponentType::I8 | ComponentType::U8 => 1,
        ComponentType::I16 | ComponentType::U16 => 2,
        ComponentType::U32 | ComponentType::F32 => 4,
    }
}

/// Reads the component of type `t` stored little-endian at `bytes[at..]`.
pub fn read_component(bytes: &[u8], at: usize, t: ComponentType) -> (c: ComponentValue)
    requires
        at + component_size(t) <= bytes@.len(),
    ensures
        c == component_at(bytes@, at as int, t),
{
    proof {
        reveal_with_fuel(le_value, 5);
    }
    match t {
        ComponentType::I8 => ComponentValue::I8(bytes[at] as i8),
        ComponentType::U8 => ComponentValue::U8(bytes[at]),
        ComponentType::I16 => {
            let v: u16 = bytes[at] as u16 + 256 * (bytes[at + 1] as u16);
            ComponentValue::I16(v as i16)
        },
        ComponentType::U16 => {
            let v: u16 = bytes[at] as u16 + 256 * (bytes[at + 1] as u16);
            ComponentValue::U16(v)
        },
        ComponentType::U32 => ComponentValue::U32(read_u32(bytes, at)),
        ComponentType::F32 => ComponentValue::F32Bits(read_u32(bytes, at)),
    }
}

/// The unsigned little-endian 32-bit number at `bytes[at..at + 4]`.
fn read_u32(bytes: &[u8], at: usize) -> (v: u32)
    requires
        at + 4 <= bytes@.len(),
    ensures
        v == le_value(bytes@, at as int, 4),
{
    proof {
        reveal_with_fuel(le_value, 5);
    }
    let b0 = bytes[at] as u32;
    let b1 = bytes[at + 1] as u32;
    let b2 = bytes[at + 2] as u32;
    let b3 = bytes[at + 3] as u32;
    b0 + 256 * (b1 + 256 * (b2 + 256 * b3))
}

/// A component read as a vertex index: integers are cast to the index type (negative
/// ones wrap around); a float is not an index this function can convert.
pub open spec fn spec_index_value(c: ComponentValue) -> Option<Index> {
    match c {
        ComponentValue::I8(v) => Some(v as Index),
        ComponentValue::U8(v) => Some(v as Index),
        ComponentValue::I16(v) => Some(v as Index),
        ComponentValue::U16(v) => Some(v as Index),
        ComponentValue::U32(v) => Some(v),
        ComponentValue::F32Bits(_) => None,
    }
}

/// A component read as a vertex index (see `spec_index_value`).
pub fn index_value(c: ComponentValue) -> (i: Option<Index>)
    ensures
        i == spec_index_value(c),
{
    match c {
        ComponentValue::I8(v) => Some(v as Index),
        ComponentValue::U8(v) => Some(v as Index),
        ComponentValue::I16(v) => Some(v as Index),
        ComponentValue::U16(v) => Some(v as Index),
        ComponentValue::U32(v) => Some(v),
        ComponentValue::F32Bits(_) => None,
    }
}

/// Whether the `count` elements of `element_size` bytes from `offset` on can each be
/// read as a component of type `t`.
pub open spec fn elements_readable(
    len: nat,
    offset: nat,
    count: nat,
    element_size: nat,
    t: ComponentType,
) -> bool {
    count > 0 ==> (component_size(t) <= element_size && offset + (count - 1) * element_size
        + component_size(t) <= len)
}

/// Reads the first component of each of the `count` elements of an index accessor: the
/// elements are `index_size` bytes apart, from `offset` in the buffer on.
pub fn read_indices(
    buffer: &[u8],
    offset: usize,
    count: usize,
    index_size: usize,
    t: ComponentType,
) -> (components: Vec<ComponentValue>)
    requires
        count * index_size <= usize::MAX,
        elements_readable(buffer@.len(), offset as nat, count as nat, index_size as nat, t),
    ensures
        components@.len() == count,
        forall|i: int|
            0 <= i < count ==> #[trigger] components@[i] == component_at(
                buffer@,
                offset + i * index_size,
                t,
            ),
{
    let mut components: Vec<ComponentValue> = Vec::with_capacity(count);
    let mut i: usize = 0;
    while i < count
        invariant
            i <= count,
            count * index_size <= usize::MAX,
            elements_readable(buffer@.len(), offset as nat, count as nat, index_size as nat, t),
            components@.len() == i,
            forall|k: int|
                0 <= k < i ==> #[trigger] components@[k] == component_at(
                    buffer@,
                    offset + k * index_size,
                    t,
                ),
        decreases count - i,
    {
        proof {
            assert((i as int) * (index_size as int) <= ((count as int) - 1) * (index_size as int)) by (nonlinear_arith)
                requires
                    i < count,
            ;
            assert(offset + (i as int) * (index_size as int) + component_size(t) <= buffer@.len());
            assert((i as int) * (index_size as int) <= (count as int) * (index_size as int)) by (nonlinear_arith)
                requires
                    i < count,
            ;
        }
        let step = i * index_size;
        let len = buffer.len();
        assert(offset + step <= len);
        let at = offset + step;
        components.push(read_component(buffer, at, t));
        i = i + 1;
    }
    components
}

/// The byte range an element of a vertex attribute occupies: its view is divided evenly
/// among the `count` elements; the range is cut short at the end of the buffer.
pub open spec fn element_range(
    len: nat,
    view_offset: nat,
    view_length: nat,
    count: nat,
    index: nat,
) -> (int, int) {
    let byte_count = view_length / count;
    let start = view_offset + byte_count * index;
    let end: int = if start + byte_count <= len { (start + byte_count) as int } else { len as int };
    if start <= len {
        (start as int, end)
    } else {
        (len as int, len as int)
    }
}

/// Reads the components of element `index` of a vertex attribute whose view starts at
/// `view_offset` and spans `view_length` bytes for `count` elements.
pub fn read_scalars(
    buffer: &[u8],
    view_offset: usize,
    view_length: usize,
    count: usize,
    index: usize,
    t: ComponentType,
) -> (scalars: Vec<ComponentValue>)
    requires
        count > 0,
        view_offset + (view_length / count) * index <= usize::MAX,
        ({
            let (s, e) = element_range(
                buffer@.len(),
                view_offset as nat,
                view_length as nat,
                count as nat,
                index as nat,
            );
            (e - s) % (component_size(t) as int) == 0
        }),
    ensures
        ({
            let (s, e) = element_range(
                buffer@.len(),
                view_offset as nat,
                view_length as nat,
                count as nat,
                index as nat,
            );
            let n = component_size(t) as int;
            &&& scalars@.len() == (e - s) / n
            &&& forall|k: int|
                0 <= k < scalars@.len() ==> #[trigger] scalars@[k] == component_at(
                    buffer@,
                    s + k * n,
                    t,
                )
        }),
{
    let byte_count = view_length / count;
    proof {
        assert(byte_count * index <= view_offset + byte_count * index) by (nonlinear_arith)
            requires
                view_offset >= 0,
        ;
    }
    let start = view_offset + byte_count * index;
    let (s, e): (usize, usize) = if start <= buffer.len() {
        let end = if byte_count <= buffer.len() - start {
            start + byte_count
        } else {
            buffer.len()
        };
        (start, end)
    } else {
        (buffer.len(), buffer.len())
    };
    let size = component_bytes(t);
    let ghost n = size as int;
    let mut scalars: Vec<ComponentValue> = Vec::new();
    let mut i: usize = s;
    while i < e
        invariant
            s <= i <= e <= buffer@.len(),
            (e - s) % n == 0,
            (i - s) % n == 0,
            n == component_size(t),
            n > 0,
            size == n,
            scalars@.len() == (i - s) / n,
            forall|k: int|
                0 <= k < scalars@.len() ==> #[trigger] scalars@[k] == component_at(
                    buffer@,
                    s + k * n,
                    t,
                ),
        decreases e - i,
    {
        proof {
            lemma_step_fits(s as int, i as int, e as int, n);
        }
        let c = read_component(buffer, i, t);
        proof {
            vstd::arithmetic::div_mod::lemma_fundamental_div_mod((i - s) as int, n);
            assert(s + scalars@.len() * n == i) by (nonlinear_arith)
                requires
                    scalars@.len() == (i - s) / n,
                    (i - s) % n == 0,
                    (i - s) == n * ((i - s) / n) + (i - s) % n,
            ;
            lemma_step_count((i - s) as int, n);
        }
        scalars.push(c);
        i = i + size;
    }
    scalars
}

/// From a whole number of steps before `e`, one more step fits before `e`.
proof fn lemma_step_fits(s: int, i: int, e: int, n: int)
    requires
        n > 0,
        s <= i < e,
        (e - s) % n == 0,
        (i - s) % n == 0,
    ensures
        i + n <= e,
{
    vstd::arithmetic::div_mod::lemma_fundamental_div_mod(e - s, n);
    vstd::arithmetic::div_mod::lemma_fundamental_div_mod(i - s, n);
    assert((i - s) / n < (e - s) / n) by (nonlinear_arith)
        requires
            n > 0,
            i - s < e - s,
            i - s == n * ((i - s) / n),
            e - s == n * ((e - s) / n),
    ;
    assert(i + n <= e) by (nonlinear_arith)
        requires
            n > 0,
            (i - s) / n + 1 <= (e - s) / n,
            i - s == n * ((i - s) / n),
            e - s == n * ((e - s) / n),
    ;
}

/// One more step of `n` adds one to the whole count of steps.
proof fn lemma_step_count(d: int, n: int)
    requires
        n > 0,
        d >= 0,
        d % n == 0,
    ensures
        (d + n) % n == 0,
        (d + n) / n == d / n + 1,
{
    vstd::arithmetic::div_mod::lemma_mod_add_multiples_vanish(d, n);
    vstd::arithmetic::div_mod::lemma_div_plus_one(d, n);
}

/// The number of indexes of the first `n` primitives of a mesh, whose index counts are
/// `counts`.
pub open spec fn index_total(counts: Seq<u32>, n: int) -> int
    decreases n,
{
    if n <= 0 {
        0
    } else {
        index_total(counts, n - 1) + counts[n - 1]
    }
}

/// Fewer primitives have no more indexes.
proof fn lemma_index_total_grows(counts: Seq<u32>, n: int, m: int)
    requires
        0 <= n <= m,
    ensures
        index_total(counts, n) <= index_total(counts, m),
    decreases m - n,
{
    if n < m {
        lemma_index_total_grows(counts, n, m - 1);
    }
}

/// Where each primitive's indexes start within its mesh: the primitives' indexes follow
/// each other, so each starts after all the indexes of those before it.
pub fn primitive_first_indexes(counts: &Vec<u32>) -> (first: Vec<u32>)
    requires
        index_total(counts@, counts@.len() as int) <= u32::MAX,
    ensures
        first@.len() == counts@.len(),
        forall|i: int| 0 <= i < counts@.len() ==> #[trigger] first@[i] == index_total(counts@, i),
{
    let mut first: Vec<u32> = Vec::with_capacity(counts.len());
    let mut total: u32 = 0;
    let mut i: usize = 0;
    while i < counts.len()
        invariant
            i <= counts@.len(),
            index_total(counts@, counts@.len() as int) <= u32::MAX,
            total == index_total(counts@, i as int),
            first@.len() == i,
            forall|j: int| 0 <= j < i ==> #[trigger] first@[j] == index_total(counts@, j),
        decreases counts@.len() - i,
    {
        first.push(total);
        proof {
            lemma_index_total_grows(counts@, i + 1, counts@.len() as int);
        }
        total = total + counts[i];
        i = i + 1;
    }
    first
}

/// Where a primitive's indexes sit in the shared index buffer.
#[derive(Copy, Clone, Debug, PartialEq, Eq, Structural)]
pub struct PrimitiveRange {
    pub first_index: u32,
    pub index_count: u32,
}

/// Where a mesh's indexes sit in the shared index buffer, and those of each primitive.
pub struct MeshIndexRange {
    pub start: u32,
    pub end: u32,
    pub primitives: Vec<PrimitiveRange>,
}

/// The number of indexes of the first `p` primitives.
pub open spec fn indexes_before(primitives: Seq<Vec<Index>>, p: int) -> int
    decreases p,
{
    if p <= 0 {
        0
    } else {
        indexes_before(primitives, p - 1) + primitives[p - 1]@.len()
    }
}

/// Fewer primitives have no more indexes.
proof fn lemma_indexes_before_grows(primitives: Seq<Vec<Index>>, p: int, q: int)
    requires
        0 <= p <= q,
    ensures
        indexes_before(primitives, p) <= indexes_before(primitives, q),
    decreases q - p,
{
    if p < q {
        lemma_indexes_before_grows(primitives, p, q - 1);
    }
}

/// Appends a mesh's indexes, primitive after primitive, to the shared index buffer. The
/// mesh starts where the buffer ended; each primitive starts where the indexes of the
/// primitives before it end, and ends its own count later.
pub fn append_mesh_indices(index_buffer: &mut Vec<Index>, primitives: &Vec<Vec<Index>>) -> (range: MeshIndexRange)
    requires
        old(index_buffer)@.len() + indexes_before(primitives@, primitives@.len() as int) <= u32::MAX,
    ensures
        ({
            let n = old(index_buffer)@.len() as int;
            let total = indexes_before(primitives@, primitives@.len() as int);
            &&& range.start == n
            &&& range.end == n + total
            &&& final(index_buffer)@.len() == n + total
            &&& final(index_buffer)@.take(n) == old(index_buffer)@
            &&& range.primitives@.len() == primitives@.len()
            &&& forall|p: int|
                0 <= p < primitives@.len() ==> #[trigger] range.primitives@[p] == (PrimitiveRange {
                    first_index: (n + indexes_before(primitives@, p)) as u32,
                    index_count: primitives@[p]@.len() as u32,
                })
            &&& forall|p: int, q: int|
                0 <= p < primitives@.len() && 0 <= q < primitives@[p]@.len() ==> final(index_buffer)@[n + indexes_before(primitives@, p) + q] == #[trigger] primitives@[p]@[q]
        }),
{
    let ghost n = index_buffer@.len() as int;
    let ghost orig = index_buffer@;
    proof {
        lemma_indexes_before_grows(primitives@, 0, primitives@.len() as int);
        assert(index_buffer@.take(n) =~= orig);
    }
    let start = index_buffer.len() as u32;
    let mut ranges: Vec<PrimitiveRange> = Vec::with_capacity(primitives.len());
    let mut p: usize = 0;
    while p < primitives.len()
        invariant
            p <= primitives@.len(),
            n == orig.len(),
            start == n,
            n + indexes_before(primitives@, primitives@.len() as int) <= u32::MAX,
            index_buffer@.len() == n + indexes_before(primitives@, p as int),
            index_buffer@.take(n) == orig,
            ranges@.len() == p,
            forall|r: int|
                0 <= r < p ==> #[trigger] ranges@[r] == (PrimitiveRange {
                    first_index: (n + indexes_before(primitives@, r)) as u32,
                    index_count: primitives@[r]@.len() as u32,
                }),
            forall|r: int, q: int|
                0 <= r < p && 0 <= q < primitives@[r]@.len() ==> index_buffer@[n
                    + indexes_before(primitives@, r) + q] == #[trigger] primitives@[r]@[q],
        decreases primitives@.len() - p,
    {
        proof {
            lemma_indexes_before_grows(primitives@, p + 1, primitives@.len() as int);
        }
        let indices = &primitives[p];
        let first_index = index_buffer.len() as u32;
        let ghost before_p = index_buffer@;
        let mut q: usize = 0;
        while q < indices.len()
            invariant
                q <= indices@.len(),
                indices@ == primitives@[p as int]@,
                p < primitives@.len(),
                n + indexes_before(primitives@, p + 1) <= u32::MAX,
                index_buffer@.len() == before_p.len() + q,
                before_p.len() == n + indexes_before(primitives@, p as int),
                index_buffer@.take(before_p.len() as int) == before_p,
                forall|k: int| 0 <= k < q ==> index_buffer@[before_p.len() + k] == #[trigger] indices@[k],
            decreases indices@.len() - q,
        {
            let ghost b = index_buffer@;
            index_buffer.push(indices[q]);
            assert(index_buffer@.take(before_p.len() as int) =~= b.take(before_p.len() as int));
            q = q + 1;
        }
        ranges.push(PrimitiveRange { first_index, index_count: indices.len() as u32 });
        proof {
            lemma_indexes_before_grows(primitives@, 0, p as int);
            assert(index_buffer@.take(n) =~= before_p.take(n)) by {
                assert forall|x: int| 0 <= x < n implies index_buffer@[x] == before_p[x] by {
                    assert(index_buffer@.take(before_p.len() as int)[x] == before_p[x]);
                }
            }
            assert forall|r: int, k: int|
                0 <= r < p + 1 && 0 <= k < primitives@[r]@.len() implies index_buffer@[n
                    + indexes_before(primitives@, r) + k] == #[trigger] primitives@[r]@[k] by {
                if r < p {
                    lemma_indexes_before_grows(primitives@, r + 1, p as int);
                    lemma_indexes_before_grows(primitives@, 0, r);
                    let x = n + indexes_before(primitives@, r) + k;
                    assert(index_buffer@.take(before_p.len() as int)[x] == before_p[x]);
                    assert(index_buffer@[n + indexes_before(primitives@, r) + k] == before_p[n
                        + indexes_before(primitives@, r) + k]);
                }
            }
        }
        p = p + 1;
    }
    let end = index_buffer.len() as u32;
    proof {
        lemma_indexes_before_grows(primitives@, 0, primitives@.len() as int);
    }
    MeshIndexRange { start, end, primitives: ranges }
}

/// Where a mesh's data starts in a shared buffer that already holds `len` items: right
/// after them, at `len` (cut to 32 bits).
pub fn mesh_start(len: usize) -> (start: u32)
    ensures
        start == len as u32,
{
    len as u32
}

/// A component read as a vertex index is the same number: unsigned components, and
/// signed ones that are not negative, keep their value; a negative one wraps around
/// the index type.
pub proof fn lemma_index_is_the_component_value(c: ComponentValue)
    ensures
        c matches ComponentValue::U32(v) ==> spec_index_value(c) == Some(v),
        c matches ComponentValue::U16(v) ==> spec_index_value(c) is Some && spec_index_value(c).unwrap() as int == v as int,
        c matches ComponentValue::U8(v) ==> spec_index_value(c) is Some && spec_index_value(c).unwrap() as int == v as int,
        c matches ComponentValue::I16(v) ==> spec_index_value(c) is Some && (v >= 0 ==> spec_index_value(c).unwrap() as int == v as int)
            && (v < 0 ==> spec_index_value(c).unwrap() as int == v as int + 0x1_0000_0000),
        c matches ComponentValue::I8(v) ==> spec_index_value(c) is Some && (v >= 0 ==> spec_index_value(c).unwrap() as int == v as int)
            && (v < 0 ==> spec_index_value(c).unwrap() as int == v as int + 0x1_0000_0000),
        c is F32Bits ==> spec_index_value(c) is None,
{
    match c {
        ComponentValue::I16(v) => {
            assert(v < 0 ==> (v as u32) as int == v as int + 0x1_0000_0000) by (bit_vector);
            assert(v >= 0 ==> (v as u32) as int == v as int) by (bit_vector);
        },
        ComponentValue::I8(v) => {
            assert(v < 0 ==> (v as u32) as int == v as int + 0x1_0000_0000) by (bit_vector);
            assert(v >= 0 ==> (v as u32) as int == v as int) by (bit_vector);
        },
        _ => {},
    }
}

/// Components are stored little end first: a two-byte one is its first byte plus 256
/// times its second, a four-byte one adds the third and fourth bytes times 2^16 and 2^24.
pub proof fn lemma_little_endian(bytes: Seq<u8>, at: int)
    ensures
        le_value(bytes, at, 2) == bytes[at] + 256 * bytes[at + 1],
        le_value(bytes, at, 4) == bytes[at] + 256 * bytes[at + 1] + 65536 * bytes[at + 2]
            + 16777216 * bytes[at + 3],
{
    reveal_with_fuel(le_value, 5);
}

/// Reading an unsigned component as an index gives the number stored little end first.
pub proof fn lemma_read_index_is_stored_number(bytes: Seq<u8>, at: int)
    ensures
        spec_index_value(component_at(bytes, at, ComponentType::U8)) == Some(bytes[at] as Index),
        spec_index_value(component_at(bytes, at, ComponentType::U32)) is Some
            && spec_index_value(component_at(bytes, at, ComponentType::U32)).unwrap() as int
            == le_value(bytes, at, 4) % 0x1_0000_0000,
{
    reveal_with_fuel(le_value, 5);
    let v = le_value(bytes, at, 4);
    assert((v as u32) as int == v % 0x1_0000_0000) by {
        vstd::arithmetic::div_mod::lemma_mod_bound(v as int, 0x1_0000_0000);
    }
}

} // verus!
