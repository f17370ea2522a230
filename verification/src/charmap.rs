//! Character maps: what each of the 256 byte values means under one encoding,
//! and the reverse direction, from a character to the byte that stands for it.

use std::collections::HashMap;
use vstd::prelude::*;
use vstd::utf8::*;

verus! {

broadcast use vstd::std_specs::hash::group_hash_axioms;

/// `char::from_u32` gives the character with the scalar value `i`, and `None`
/// where `i` is a surrogate or lies above U+10FFFF.
pub assume_specification[ char::from_u32 ](i: u32) -> (r: Option<char>)
    ensures
        r == slot_of(i),
;

/// What a table entry stands for: the character with that scalar value, or
/// nothing where the entry is not a Unicode scalar value.
pub open spec fn slot_of(raw: u32) -> Option<char> {
    if is_scalar(raw) {
        Some(raw as char)
    } else {
        None
    }
}

/// The map of a code page that agrees with ASCII on bytes 0x00 to 0x7F and
/// whose bytes 0x80 to 0xFF are listed in `high`.
pub open spec fn ascii_page(high: Seq<u32>) -> Seq<Option<char>> {
    Seq::new(
        256,
        |b: int|
            if b < 0x80 {
                Some(b as u8 as char)
            } else {
                slot_of(high[b - 0x80])
            },
    )
}

/// The map of a code page whose 256 bytes are listed in `page`.
pub open spec fn full_page(page: Seq<u32>) -> Seq<Option<char>> {
    Seq::new(256, |b: int| slot_of(page[b]))
}

/// The map under which every byte stands for the character with the same
/// scalar value.
pub open spec fn identity_page() -> Seq<Option<char>> {
    Seq::new(256, |b: int| Some(b as u8 as char))
}

/// The map that assigns no character to any byte.
pub open spec fn empty_page() -> Seq<Option<char>> {
    Seq::new(256, |b: int| None)
}

/// The first byte below `limit` that `map` assigns to `c`, if there is one.
pub open spec fn first_byte_below(map: Seq<Option<char>>, c: char, limit: nat) -> Option<u8>
    decreases limit,
{
    if limit == 0 {
        None
    } else {
        match first_byte_below(map, c, (limit - 1) as nat) {
            Some(b) => Some(b),
            None => if map[limit - 1] == Some(c) {
                Some((limit - 1) as u8)
            } else {
                None
            },
        }
    }
}

/// The byte that stands for `c` under `map`: the first one, where several bytes
/// carry the same character.
pub open spec fn reverse_lookup(map: Seq<Option<char>>, c: char) -> Option<u8> {
    first_byte_below(map, c, map.len())
}

/// `first_byte_below` finds the least byte that carries `c`, and finds none
/// only where no byte below the limit carries it.
pub proof fn lemma_first_byte_below(map: Seq<Option<char>>, c: char, limit: nat)
    requires
        limit <= map.len() <= 256,
    ensures
        match first_byte_below(map, c, limit) {
            Some(b) => b < limit && map[b as int] == Some(c) && forall|j: int|
                0 <= j < b ==> map[j] != Some(c),
            None => forall|j: int| 0 <= j < limit ==> map[j] != Some(c),
        },
    decreases limit,
{
    if limit > 0 {
        lemma_first_byte_below(map, c, (limit - 1) as nat);
    }
}

/// Whether no character stands at two bytes of the map.
pub open spec fn injective(map: Seq<Option<char>>) -> bool {
    forall|i: int, j: int|
        0 <= i < j < map.len() && (#[trigger] map[i]) is Some ==> map[i] != (#[trigger] map[j])
}

/// Whether a character map assigns a character to every byte, and to no two
/// bytes the same.
pub open spec fn one_to_one(map: Seq<Option<char>>) -> bool {
    &&& map.len() == 256
    &&& forall|b: int| 0 <= b < 256 ==> (#[trigger] map[b]) is Some
    &&& injective(map)
}

/// Whether the entries of a table that are Unicode scalar values are all
/// different, and none of them below `floor`.
pub open spec fn distinct_defined(entries: Seq<u32>, floor: u32) -> bool {
    &&& forall|i: int|
        0 <= i < entries.len() && is_scalar(#[trigger] entries[i]) ==> entries[i] >= floor
    &&& forall|i: int, j: int|
        0 <= i < j < entries.len() && is_scalar(#[trigger] entries[i]) ==> entries[i] != (
        #[trigger] entries[j])
}

/// Whether the entries of a table are Unicode scalar values, none of them
/// below `floor` and no two of them the same.
pub open spec fn distinct_scalars(entries: Seq<u32>, floor: u32) -> bool {
    &&& forall|i: int|
        0 <= i < entries.len() ==> is_scalar(#[trigger] entries[i]) && entries[i] >= floor
    &&& forall|i: int, j: int|
        0 <= i < j < entries.len() ==> (#[trigger] entries[i]) != (#[trigger] entries[j])
}

/// Entries that are all different are different where they are defined.
pub proof fn lemma_distinct_scalars(entries: Seq<u32>, floor: u32)
    requires
        distinct_scalars(entries, floor),
    ensures
        distinct_defined(entries, floor),
{
}

/// Two different scalar values are two different characters.
pub proof fn lemma_slots_differ(a: u32, b: u32)
    requires
        is_scalar(a),
        a != b,
    ensures
        slot_of(a) is Some,
        slot_of(a) != slot_of(b),
{
    assert((a as char) as u32 == a);
    if is_scalar(b) {
        assert((b as char) as u32 == b);
    }
}

/// A code page whose upper half holds different characters above the ASCII
/// range carries no character at two bytes.
pub proof fn lemma_ascii_page_injective(high: Seq<u32>)
    requires
        high.len() == 128,
        distinct_defined(high, 0x80),
    ensures
        ascii_page(high).len() == 256,
        injective(ascii_page(high)),
{
    let map = ascii_page(high);
    assert forall|i: int, j: int| 0 <= i < j < 256 && (#[trigger] map[i]) is Some implies map[i]
        != (#[trigger] map[j]) by {
        if i >= 0x80 {
            lemma_slots_differ(high[i - 0x80], high[j - 0x80]);
        } else if j >= 0x80 {
            assert(slot_of(i as u32) == Some(i as u8 as char));
            if is_scalar(high[j - 0x80]) {
                assert(high[j - 0x80] >= 0x80);
                lemma_slots_differ(i as u32, high[j - 0x80]);
            }
        } else {
            lemma_slots_differ(i as u32, j as u32);
            assert(slot_of(i as u32) == Some(i as u8 as char));
            assert(slot_of(j as u32) == Some(j as u8 as char));
        }
    }
}

/// A code page whose entries are different characters carries no character
/// at two bytes.
pub proof fn lemma_full_page_injective(page: Seq<u32>)
    requires
        page.len() == 256,
        distinct_defined(page, 0),
    ensures
        full_page(page).len() == 256,
        injective(full_page(page)),
{
    let map = full_page(page);
    assert forall|i: int, j: int| 0 <= i < j < 256 && (#[trigger] map[i]) is Some implies map[i]
        != (#[trigger] map[j]) by {
        lemma_slots_differ(page[i], page[j]);
    }
}

/// The identity map assigns a character to every byte, and to no two the
/// same.
pub proof fn lemma_identity_page_one_to_one()
    ensures
        one_to_one(identity_page()),
{
    let map = identity_page();
    assert forall|i: int, j: int| 0 <= i < j < 256 && (#[trigger] map[i]) is Some implies map[i]
        != (#[trigger] map[j]) by {
        lemma_slots_differ(i as u32, j as u32);
        assert(slot_of(i as u32) == Some(i as u8 as char));
        assert(slot_of(j as u32) == Some(j as u8 as char));
    }
}

/// Where no character stands at two bytes, the byte of a character is the
/// one byte that carries it.
pub proof fn lemma_reverse_of_injective(map: Seq<Option<char>>, byte: u8)
    requires
        map.len() == 256,
        injective(map),
        map[byte as int] is Some,
    ensures
        reverse_lookup(map, map[byte as int]->0) == Some(byte),
{
    let c = map[byte as int]->0;
    lemma_first_byte_below(map, c, 256);
    let found = first_byte_below(map, c, 256);
    assert(found is Some);
    if found->0 != byte {
        assert(map[found->0 as int] == map[byte as int]);
    }
}

/// The 256 slots of one encoding: for each byte the character it stands for, if
/// any.
pub struct CharacterMap {
    slots: Vec<Option<char>>,
}

impl View for CharacterMap {
    type V = Seq<Option<char>>;

    closed spec fn view(&self) -> Seq<Option<char>> {
        self.slots@
    }
}

impl CharacterMap {
    #[verifier::type_invariant]
    spec fn well_formed(self) -> bool {
        self.slots@.len() == 256
    }

    /// Builds the map of a code page that agrees with ASCII on its lower half.
    pub fn from_high(high: &[u32; 128]) -> (m: CharacterMap)
        ensures
            m@ == ascii_page(high@),
    {
        let mut slots: Vec<Option<char>> = Vec::with_capacity(256);
        let mut b: u32 = 0;
        while b < 0x80
            invariant
                b <= 0x80,
                slots@.len() == b,
                forall|j: int| 0 <= j < b ==> slots@[j] == Some(j as u8 as char),
            decreases 0x80 - b,
        {
            slots.push(char::from_u32(b));
            b += 1;
        }
        let mut i: usize = 0;
        while i < 128
            invariant
                i <= 128,
                slots@.len() == 128 + i,
                forall|j: int| 0 <= j < 128 ==> slots@[j] == Some(j as u8 as char),
                forall|j: int| 0 <= j < i ==> slots@[128 + j] == slot_of(high@[j]),
            decreases 128 - i,
        {
            slots.push(char::from_u32(high[i]));
            i += 1;
        }
        assert(slots@ =~= ascii_page(high@));
        CharacterMap { slots }
    }

    /// Builds the map of a code page from all of its 256 entries.
    pub fn from_full(page: &[u32; 256]) -> (m: CharacterMap)
        ensures
            m@ == full_page(page@),
    {
        let mut slots: Vec<Option<char>> = Vec::with_capacity(256);
        let mut i: usize = 0;
        while i < 256
            invariant
                i <= 256,
                slots@.len() == i,
                forall|j: int| 0 <= j < i ==> slots@[j] == slot_of(page@[j]),
            decreases 256 - i,
        {
            slots.push(char::from_u32(page[i]));
            i += 1;
        }
        assert(slots@ =~= full_page(page@));
        CharacterMap { slots }
    }

    /// Builds the map under which every byte stands for the character with the
    /// same scalar value.
    pub fn identity() -> (m: CharacterMap)
        ensures
            m@ == identity_page(),
    {
        let mut slots: Vec<Option<char>> = Vec::with_capacity(256);
        let mut b: u32 = 0;
        while b < 256
            invariant
                b <= 256,
                slots@.len() == b,
                forall|j: int| 0 <= j < b ==> slots@[j] == Some(j as u8 as char),
            decreases 256 - b,
        {
            slots.push(char::from_u32(b));
            b += 1;
        }
        assert(slots@ =~= identity_page());
        CharacterMap { slots }
    }

    /// Builds the map that assigns no character to any byte.
    pub fn empty() -> (m: CharacterMap)
        ensures
            m@ == empty_page(),
    {
        let mut slots: Vec<Option<char>> = Vec::with_capacity(256);
        let mut i: usize = 0;
        while i < 256
            invariant
                i <= 256,
                slots@.len() == i,
                forall|j: int| 0 <= j < i ==> slots@[j] is None,
            decreases 256 - i,
        {
            slots.push(None);
            i += 1;
        }
        assert(slots@ =~= empty_page());
        CharacterMap { slots }
    }

    /// The character that `byte` stands for, if any.
    pub fn get(&self, byte: u8) -> (r: Option<char>)
        ensures
            self@.len() == 256,
            r == self@[byte as int],
    {
        proof {
            use_type_invariant(self);
        }
        self.slots[byte as usize]
    }
}

/// A character map turned round: from a character to the first byte that
/// stands for it.
pub struct ReverseMap {
    index: HashMap<u32, u8>,
    source: Ghost<Seq<Option<char>>>,
}

impl View for ReverseMap {
    type V = Seq<Option<char>>;

    /// The character map that was turned round.
    closed spec fn view(&self) -> Seq<Option<char>> {
        self.source@
    }
}

/// Whether `index` answers, for every character, with the first byte below
/// `limit` that `map` assigns to it.
spec fn indexes(index: Map<u32, u8>, map: Seq<Option<char>>, limit: nat) -> bool {
    forall|k: u32|
        is_scalar(k) ==> (match first_byte_below(map, k as char, limit) {
            Some(b) => index.contains_key(k) && index[k] == b,
            None => !index.contains_key(k),
        })
}

impl ReverseMap {
    #[verifier::type_invariant]
    spec fn well_formed(self) -> bool {
        &&& self.source@.len() == 256
        &&& indexes(self.index@, self.source@, 256)
    }

    /// Turns `map` round.
    pub fn new(map: &CharacterMap) -> (r: ReverseMap)
        ensures
            r@ == map@,
    {
        let mut index: HashMap<u32, u8> = HashMap::new();
        let mut i: usize = 0;
        proof {
            use_type_invariant(map);
        }
        while i < 256
            invariant
                i <= 256,
                map@.len() == 256,
                indexes(index@, map@, i as nat),
            decreases 256 - i,
        {
            let byte = i as u8;
            let ghost before = index@;
            if let Some(c) = map.get(byte) {
                let key = c as u32;
                proof {
                    char_is_scalar(c);
                    char_u32_cast(c, key);
                }
                if !index.contains_key(&key) {
                    index.insert(key, byte);
                }
            }
            proof {
                assert forall|k: u32| is_scalar(k) implies (match first_byte_below(
                    map@,
                    k as char,
                    (i + 1) as nat,
                ) {
                    Some(b) => index@.contains_key(k) && index@[k] == b,
                    None => !index@.contains_key(k),
                }) by {
                    let earlier = first_byte_below(map@, k as char, i as nat);
                    assert(match earlier {
                        Some(b) => before.contains_key(k) && before[k] == b,
                        None => !before.contains_key(k),
                    });
                    if map@[i as int] == Some(k as char) {
                        assert((k as char) as u32 == k);
                    } else if map@[i as int] is Some {
                        let c = map@[i as int]->0;
                        char_u32_cast(c, c as u32);
                        assert(c as u32 != k);
                    }
                }
            }
            i += 1;
        }
        ReverseMap { index, source: Ghost(map@) }
    }

    /// The first byte that stands for `c`, if any.
    pub fn get(&self, c: char) -> (r: Option<u8>)
        ensures
            r == reverse_lookup(self@, c),
    {
        proof {
            use_type_invariant(self);
        }
        let key = c as u32;
        proof {
            char_is_scalar(c);
            char_u32_cast(c, key);
        }
        match self.index.get(&key) {
            Some(b) => Some(*b),
            None => None,
        }
    }
}

} // verus!
