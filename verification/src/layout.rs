//! The keyboard's LEDs as the ripple animation sees them: where each LED sits
//! in the physical matrix, and which cell a key press starts a ripple from.

use vstd::prelude::*;

use crate::keymap::{key_led_name, led_name_for_key};
use crate::matrix::{coordinate_of, is_last_cell_of, keyboard_coordinates, MatrixCell};

verus! {

/// The evdev event value of an initial key press (as opposed to a release,
/// `0`, or an autorepeat, `2`).
pub const KEY_PRESSED: i32 = 1;

/// One LED of the keyboard controller: the name OpenRGB gives it and its
/// index in the controller's LED order.
#[derive(Clone, Debug)]
pub struct LedEntry {
    pub name: String,
    pub id: usize,
}

/// `i` is the last entry of `leds` with this name.
pub open spec fn is_last_named(leds: Seq<LedEntry>, name: Seq<char>, i: int) -> bool {
    &&& 0 <= i < leds.len()
    &&& leds[i].name@ == name
    &&& forall|j: int| i < j < leds.len() ==> #[trigger] leds[j].name@ != name
}

/// Some entry of `leds` has this name.
pub open spec fn has_led_named(leds: Seq<LedEntry>, name: Seq<char>) -> bool {
    exists|i: int| 0 <= i < leds.len() && #[trigger] leds[i].name@ == name
}

/// The LED index that a name-to-index map built from `leds` in order gives
/// for `name`: a later entry with the same name replaces an earlier one.
pub open spec fn led_id_named(leds: Seq<LedEntry>, name: Seq<char>) -> Option<usize> {
    if has_led_named(leds, name) {
        Some(leds[choose|i: int| is_last_named(leds, name, i)].id)
    } else {
        None
    }
}

/// The cell that a key event starts a ripple from: only an initial press of
/// a key whose LED the controller has and the matrix holds starts one.
pub open spec fn spec_ripple_origin(
    coordinates: Seq<Option<MatrixCell>>,
    leds: Seq<LedEntry>,
    key_code: u16,
    value: i32,
) -> Option<MatrixCell> {
    if value != KEY_PRESSED {
        None
    } else {
        match key_led_name(key_code) {
            None => None,
            Some(name) => match led_id_named(leds, name) {
                None => None,
                Some(id) => if id < coordinates.len() {
                    coordinates[id as int]
                } else {
                    None
                },
            },
        }
    }
}

/// `coordinates` is the coordinate table of `led_count` controller LEDs.
pub open spec fn is_coordinate_table(coordinates: Seq<Option<MatrixCell>>, led_count: nat) -> bool {
    &&& coordinates.len() == led_count
    &&& forall|led: int| 0 <= led < led_count ==> coordinate_of(led, #[trigger] coordinates[led])
}

/// The keyboard controller's LEDs, with the matrix cell of each.
#[derive(Clone, Debug)]
pub struct KeyboardLayout {
    /// The matrix cell of each controller LED, by LED index.
    pub coordinates: Vec<Option<MatrixCell>>,
    /// The controller's LEDs in the order the controller lists them.
    pub leds: Vec<LedEntry>,
}

impl KeyboardLayout {
    /// The layout of a controller with `led_count` LEDs, listed as `leds`.
    pub fn new(led_count: usize, leds: Vec<LedEntry>) -> (r: KeyboardLayout)
        ensures
            is_coordinate_table(r.coordinates@, led_count as nat),
            r.leds@ == leds@,
    {
        KeyboardLayout { coordinates: keyboard_coordinates(led_count), leds }
    }

    /// The LED index for an OpenRGB LED name; a later LED with the same name
    /// takes the place of an earlier one.
    pub fn led_id(&self, name: &str) -> (r: Option<usize>)
        ensures
            r == led_id_named(self.leds@, name@),
            is_exact_name_lookup(self.leds@, name@, r),
    {
        proof {
            lemma_led_id_named_is_exact(self.leds@, name@);
        }
        let wanted: String = name.to_owned();
        let n = self.leds.len();
        let mut k: usize = n;
        while k > 0
            invariant
                k <= n,
                n == self.leds@.len(),
                wanted@ == name@,
                forall|j: int| k <= j < n ==> #[trigger] self.leds@[j].name@ != name@,
            decreases k,
        {
            let i = k - 1;
            if self.leds[i].name == wanted {
                proof {
                    let leds = self.leds@;
                    assert(is_last_named(leds, name@, i as int));
                    assert(has_led_named(leds, name@));
                    let c = choose|c: int| is_last_named(leds, name@, c);
                    if c < i {
                        assert(leds[i as int].name@ != name@);
                    } else if c > i {
                        assert(leds[c].name@ != name@);
                    }
                }
                return Some(self.leds[i].id);
            }
            k = i;
        }
        None
    }

    /// The matrix cell of the LED with this index, if the matrix holds it.
    pub fn cell_of_led(&self, id: usize) -> (r: Option<MatrixCell>)
        ensures
            r == (if id < self.coordinates@.len() {
                self.coordinates@[id as int]
            } else {
                None
            }),
    {
        if id < self.coordinates.len() {
            self.coordinates[id]
        } else {
            None
        }
    }

    /// The cell that a key event with this evdev key code and value starts a
    /// ripple from, or `None` when it starts none.
    pub fn ripple_origin(&self, key_code: u16, value: i32) -> (r: Option<MatrixCell>)
        ensures
            r == spec_ripple_origin(self.coordinates@, self.leds@, key_code, value),
            r is Some ==> value == KEY_PRESSED,
    {
        if value != KEY_PRESSED {
            return None;
        }
        match led_name_for_key(key_code) {
            None => None,
            Some(name) => match self.led_id(name) {
                None => None,
                Some(id) => self.cell_of_led(id),
            },
        }
    }
}

/// A ripple starts only on an initial key press, and from the matrix cell of
/// the LED under the pressed key: the cell that the coordinate table gives for
/// the index that the key's LED name maps to.
pub proof fn lemma_ripple_starts_under_pressed_key(
    coordinates: Seq<Option<MatrixCell>>,
    led_count: nat,
    leds: Seq<LedEntry>,
    key_code: u16,
    value: i32,
)
    requires
        is_coordinate_table(coordinates, led_count),
    ensures
        spec_ripple_origin(coordinates, leds, key_code, value) matches Some(cell) ==> {
            &&& value == KEY_PRESSED
            &&& key_led_name(key_code) matches Some(name)
            &&& led_id_named(leds, name) matches Some(id)
            &&& is_last_cell_of(id as int, cell)
        },
{
    if spec_ripple_origin(coordinates, leds, key_code, value) is Some {
        let name = key_led_name(key_code)->0;
        let id = led_id_named(leds, name)->0;
        assert(coordinate_of(id as int, coordinates[id as int]));
    }
}

/// `result` is what looking `name` up by exact name among `leds` gives, a
/// later entry replacing an earlier one of the same name: the id of the last
/// entry whose name equals `name`, or `None` when no entry's name equals it.
/// An entry whose name merely starts with `name` is not a match.
pub open spec fn is_exact_name_lookup(leds: Seq<LedEntry>, name: Seq<char>, result: Option<usize>) -> bool {
    match result {
        Some(id) => exists|i: int|
            0 <= i < leds.len() && #[trigger] leds[i].name@ == name && leds[i].id == id && forall|
                j: int,
            |
                i < j < leds.len() ==> #[trigger] leds[j].name@ != name,
        None => forall|i: int| 0 <= i < leds.len() ==> #[trigger] leds[i].name@ != name,
    }
}

/// The LED lookup by name is an exact-name lookup in which the last entry of
/// a name wins.
pub proof fn lemma_led_id_named_is_exact(leds: Seq<LedEntry>, name: Seq<char>)
    ensures
        is_exact_name_lookup(leds, name, led_id_named(leds, name)),
{
    if has_led_named(leds, name) {
        let w = choose|w: int| 0 <= w < leds.len() && #[trigger] leds[w].name@ == name;
        lemma_last_named_exists(leds, name, w);
        let i = choose|i: int| is_last_named(leds, name, i);
        assert(leds[i].name@ == name);
    }
}

proof fn lemma_last_named_exists(leds: Seq<LedEntry>, name: Seq<char>, w: int)
    requires
        0 <= w < leds.len(),
        leds[w].name@ == name,
    ensures
        exists|i: int| is_last_named(leds, name, i),
    decreases leds.len() - w,
{
    if forall|j: int| w < j < leds.len() ==> #[trigger] leds[j].name@ != name {
        assert(is_last_named(leds, name, w));
    } else {
        let v = choose|j: int| w < j < leds.len() && #[trigger] leds[j].name@ == name;
        lemma_last_named_exists(leds, name, v);
    }
}

/// A key event starts a ripple exactly when it is an initial press
/// (value 1) of a key with an LED name, an LED of exactly that name is listed,
/// and the matrix holds the last such LED; the ripple then starts at that
/// LED's cell.
pub proof fn lemma_ripple_origin_by_exact_name(
    coordinates: Seq<Option<MatrixCell>>,
    leds: Seq<LedEntry>,
    key_code: u16,
    value: i32,
    cell: MatrixCell,
)
    ensures
        (spec_ripple_origin(coordinates, leds, key_code, value) == Some(cell)) <==> {
            &&& value == 1
            &&& key_led_name(key_code) is Some
            &&& exists|i: int|
                0 <= i < leds.len() && #[trigger] leds[i].name@ == key_led_name(key_code)->0
                    && (forall|j: int|
                    i < j < leds.len() ==> #[trigger] leds[j].name@ != key_led_name(key_code)->0)
                    && leds[i].id < coordinates.len() && coordinates[leds[i].id as int]
                    == Some(cell)
        },
{
    if key_led_name(key_code) is Some {
        let name = key_led_name(key_code)->0;
        lemma_led_id_named_is_exact(leds, name);
        if exists|i: int|
            0 <= i < leds.len() && #[trigger] leds[i].name@ == name && (forall|j: int|
                i < j < leds.len() ==> #[trigger] leds[j].name@ != name) && leds[i].id
                < coordinates.len() && coordinates[leds[i].id as int] == Some(cell) {
            let i = choose|i: int|
                0 <= i < leds.len() && #[trigger] leds[i].name@ == name && (forall|j: int|
                    i < j < leds.len() ==> #[trigger] leds[j].name@ != name) && leds[i].id
                    < coordinates.len() && coordinates[leds[i].id as int] == Some(cell);
            let id = led_id_named(leds, name)->0;
            let k = choose|k: int|
                0 <= k < leds.len() && #[trigger] leds[k].name@ == name && leds[k].id == id
                    && forall|j: int| k < j < leds.len() ==> #[trigger] leds[j].name@ != name;
            if k < i {
                assert(leds[i].name@ == name);
            } else if i < k {
                assert(leds[k].name@ == name);
            }
        }
    }
}

} // verus!
