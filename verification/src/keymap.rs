//! The evdev key codes of the G513 and the names that OpenRGB gives to the
//! LEDs under those keys.

use vstd::prelude::*;

verus! {

/// OpenRGB's name of the LED under the key with this evdev key code, if the
/// keyboard has such a key.
pub open spec fn key_led_name(code: u16) -> Option<Seq<char>> {
    match code {
        1 => Some("Key: Escape"@),
        2 => Some("Key: 1"@),
        3 => Some("Key: 2"@),
        4 => Some("Key: 3"@),
        5 => Some("Key: 4"@),
        6 => Some("Key: 5"@),
        7 => Some("Key: 6"@),
        8 => Some("Key: 7"@),
        9 => Some("Key: 8"@),
        10 => Some("Key: 9"@),
        11 => Some("Key: 0"@),
        12 => Some("Key: -"@),
        13 => Some("Key: ="@),
        14 => Some("Key: Backspace"@),
        15 => Some("Key: Tab"@),
        16 => Some("Key: Q"@),
        17 => Some("Key: W"@),
        18 => Some("Key: E"@),
        19 => Some("Key: R"@),
        20 => Some("Key: T"@),
        21 => Some("Key: Y"@),
        22 => Some("Key: U"@),
        23 => Some("Key: I"@),
        24 => Some("Key: O"@),
        25 => Some("Key: P"@),
        26 => Some("Key: ["@),
        27 => Some("Key: ]"@),
        28 => Some("Key: Enter"@),
        29 => Some("Key: Left Control"@),
        30 => Some("Key: A"@),
        31 => Some("Key: S"@),
        32 => Some("Key: D"@),
        33 => Some("Key: F"@),
        34 => Some("Key: G"@),
        35 => Some("Key: H"@),
        36 => Some("Key: J"@),
        37 => Some("Key: K"@),
        38 => Some("Key: L"@),
        39 => Some("Key: ;"@),
        40 => Some("Key: '"@),
        41 => Some("Key: `"@),
        42 => Some("Key: Left Shift"@),
        43 => Some("Key: \\ (ANSI)"@),
        44 => Some("Key: Z"@),
        45 => Some("Key: X"@),
        46 => Some("Key: C"@),
        47 => Some("Key: V"@),
        48 => Some("Key: B"@),
        49 => Some("Key: N"@),
        50 => Some("Key: M"@),
        51 => Some("Key: ,"@),
        52 => Some("Key: ."@),
        53 => Some("Key: /"@),
        54 => Some("Key: Right Shift"@),
        55 => Some("Key: Number Pad *"@),
        56 => Some("Key: Left Alt"@),
        57 => Some("Key: Space"@),
        58 => Some("Key: Caps Lock"@),
        59 => Some("Key: F1"@),
        60 => Some("Key: F2"@),
        61 => Some("Key: F3"@),
        62 => Some("Key: F4"@),
        63 => Some("Key: F5"@),
        64 => Some("Key: F6"@),
        65 => Some("Key: F7"@),
        66 => Some("Key: F8"@),
        67 => Some("Key: F9"@),
        68 => Some("Key: F10"@),
        69 => Some("Key: Num Lock"@),
        70 => Some("Key: Scroll Lock"@),
        71 => Some("Key: Number Pad 7"@),
        72 => Some("Key: Number Pad 8"@),
        73 => Some("Key: Number Pad 9"@),
        74 => Some("Key: Number Pad -"@),
        75 => Some("Key: Number Pad 4"@),
        76 => Some("Key: Number Pad 5"@),
        77 => Some("Key: Number Pad 6"@),
        78 => Some("Key: Number Pad +"@),
        79 => Some("Key: Number Pad 1"@),
        80 => Some("Key: Number Pad 2"@),
        81 => Some("Key: Number Pad 3"@),
        82 => Some("Key: Number Pad 0"@),
        83 => Some("Key: Number Pad ."@),
        86 => Some("Key: \\ (ISO)"@),
        87 => Some("Key: F11"@),
        88 => Some("Key: F12"@),
        96 => Some("Key: Number Pad Enter"@),
        97 => Some("Key: Right Control"@),
        98 => Some("Key: Number Pad /"@),
        99 => Some("Key: Print Screen"@),
        100 => Some("Key: Right Alt"@),
        102 => Some("Key: Home"@),
        103 => Some("Key: Up Arrow"@),
        104 => Some("Key: Page Up"@),
        105 => Some("Key: Left Arrow"@),
        106 => Some("Key: Right Arrow"@),
        107 => Some("Key: End"@),
        108 => Some("Key: Down Arrow"@),
        109 => Some("Key: Page Down"@),
        110 => Some("Key: Insert"@),
        111 => Some("Key: Delete"@),
        113 => Some("Key: Media Mute"@),
        119 => Some("Key: Pause/Break"@),
        125 => Some("Key: Left Windows"@),
        126 => Some("Key: Right Windows"@),
        127 | 139 => Some("Key: Menu"@),
        163 => Some("Key: Media Next"@),
        164 => Some("Key: Media Play/Pause"@),
        165 => Some("Key: Media Previous"@),
        166 => Some("Key: Media Stop"@),
        _ => None,
    }
}

/// Maps an evdev key code to the OpenRGB name of the LED under that key.
///
/// Keys without an LED of their own on the G513 map to `None`.
pub fn led_name_for_key(code: u16) -> (r: Option<&'static str>)
    ensures
        match r {
            Some(name) => key_led_name(code) == Some(name@),
            None => key_led_name(code) is None,
        },
{
    match code {
        1 => Some("Key: Escape"),
        2 => Some("Key: 1"),
        3 => Some("Key: 2"),
        4 => Some("Key: 3"),
        5 => Some("Key: 4"),
        6 => Some("Key: 5"),
        7 => Some("Key: 6"),
        8 => Some("Key: 7"),
        9 => Some("Key: 8"),
        10 => Some("Key: 9"),
        11 => Some("Key: 0"),
        12 => Some("Key: -"),
        13 => Some("Key: ="),
        14 => Some("Key: Backspace"),
        15 => Some("Key: Tab"),
        16 => Some("Key: Q"),
        17 => Some("Key: W"),
        18 => Some("Key: E"),
        19 => Some("Key: R"),
        20 => Some("Key: T"),
        21 => Some("Key: Y"),
        22 => Some("Key: U"),
        23 => Some("Key: I"),
        24 => Some("Key: O"),
        25 => Some("Key: P"),
        26 => Some("Key: ["),
        27 => Some("Key: ]"),
        28 => Some("Key: Enter"),
        29 => Some("Key: Left Control"),
        30 => Some("Key: A"),
        31 => Some("Key: S"),
        32 => Some("Key: D"),
        33 => Some("Key: F"),
        34 => Some("Key: G"),
        35 => Some("Key: H"),
        36 => Some("Key: J"),
        37 => Some("Key: K"),
        38 => Some("Key: L"),
        39 => Some("Key: ;"),
        40 => Some("Key: '"),
        41 => Some("Key: `"),
        42 => Some("Key: Left Shift"),
        43 => Some("Key: \\ (ANSI)"),
        44 => Some("Key: Z"),
        45 => Some("Key: X"),
        46 => Some("Key: C"),
        47 => Some("Key: V"),
        48 => Some("Key: B"),
        49 => Some("Key: N"),
        50 => Some("Key: M"),
        51 => Some("Key: ,"),
        52 => Some("Key: ."),
        53 => Some("Key: /"),
        54 => Some("Key: Right Shift"),
        55 => Some("Key: Number Pad *"),
        56 => Some("Key: Left Alt"),
        57 => Some("Key: Space"),
        58 => Some("Key: Caps Lock"),
        59 => Some("Key: F1"),
        60 => Some("Key: F2"),
        61 => Some("Key: F3"),
        62 => Some("Key: F4"),
        63 => Some("Key: F5"),
        64 => Some("Key: F6"),
        65 => Some("Key: F7"),
        66 => Some("Key: F8"),
        67 => Some("Key: F9"),
        68 => Some("Key: F10"),
        69 => Some("Key: Num Lock"),
        70 => Some("Key: Scroll Lock"),
        71 => Some("Key: Number Pad 7"),
        72 => Some("Key: Number Pad 8"),
        73 => Some("Key: Number Pad 9"),
        74 => Some("Key: Number Pad -"),
        75 => Some("Key: Number Pad 4"),
        76 => Some("Key: Number Pad 5"),
        77 => Some("Key: Number Pad 6"),
        78 => Some("Key: Number Pad +"),
        79 => Some("Key: Number Pad 1"),
        80 => Some("Key: Number Pad 2"),
        81 => Some("Key: Number Pad 3"),
        82 => Some("Key: Number Pad 0"),
        83 => Some("Key: Number Pad ."),
        86 => Some("Key: \\ (ISO)"),
        87 => Some("Key: F11"),
        88 => Some("Key: F12"),
        96 => Some("Key: Number Pad Enter"),
        97 => Some("Key: Right Control"),
        98 => Some("Key: Number Pad /"),
        99 => Some("Key: Print Screen"),
        100 => Some("Key: Right Alt"),
        102 => Some("Key: Home"),
        103 => Some("Key: Up Arrow"),
        104 => Some("Key: Page Up"),
        105 => Some("Key: Left Arrow"),
        106 => Some("Key: Right Arrow"),
        107 => Some("Key: End"),
        108 => Some("Key: Down Arrow"),
        109 => Some("Key: Page Down"),
        110 => Some("Key: Insert"),
        111 => Some("Key: Delete"),
        113 => Some("Key: Media Mute"),
        119 => Some("Key: Pause/Break"),
        125 => Some("Key: Left Windows"),
        126 => Some("Key: Right Windows"),
        127 | 139 => Some("Key: Menu"),
        163 => Some("Key: Media Next"),
        164 => Some("Key: Media Play/Pause"),
        165 => Some("Key: Media Previous"),
        166 => Some("Key: Media Stop"),
        _ => None,
    }
}


/// The first five characters of every LED name in the key table.
pub open spec fn is_key_led_name(name: Seq<char>) -> bool {
    &&& name.len() >= 5
    &&& name.subrange(0, 5) == "Key: "@
}

/// Length, sixth and last character of a key LED name, packed into one
/// number; the key table's names are told apart by these three alone.
spec fn name_fingerprint(name: Seq<char>) -> int {
    (name.len() * 0x200000 + name[5] as int) * 0x200000 + name[name.len() - 1] as int
}

/// The key code whose LED name has this fingerprint (the lower code where
/// two keys share one LED), or -1.
spec fn code_of_fingerprint(f: int) -> int {
    if f == 48378656325733 {
        1
    } else if f == 26388381827121 {
        2
    } else if f == 26388383924274 {
        3
    } else if f == 26388386021427 {
        4
    } else if f == 26388388118580 {
        5
    } else if f == 26388390215733 {
        6
    } else if f == 26388392312886 {
        7
    } else if f == 26388394410039 {
        8
    } else if f == 26388396507192 {
        9
    } else if f == 26388398604345 {
        10
    } else if f == 26388379729968 {
        11
    } else if f == 26388373438509 {
        12
    } else if f == 26388406992957 {
        13
    } else if f == 61572789567589 {
        14
    } else if f == 35184548249698 {
        15
    } else if f == 26388448936017 {
        16
    } else if f == 26388461518935 {
        17
    } else if f == 26388423770181 {
        18
    } else if f == 26388451033170 {
        19
    } else if f == 26388455227476 {
        20
    } else if f == 26388465713241 {
        21
    } else if f == 26388457324629 {
        22
    } else if f == 26388432158793 {
        23
    } else if f == 26388444741711 {
        24
    } else if f == 26388446838864 {
        25
    } else if f == 26388469907547 {
        26
    } else if f == 26388474101853 {
        27
    } else if f == 43980609814642 {
        28
    } else if f == 74766950072428 {
        29
    } else if f == 26388415381569 {
        30
    } else if f == 26388453130323 {
        31
    } else if f == 26388421673028 {
        32
    } else if f == 26388425867334 {
        33
    } else if f == 26388427964487 {
        34
    } else if f == 26388430061640 {
        35
    } else if f == 26388434255946 {
        36
    } else if f == 26388436353099 {
        37
    } else if f == 26388438450252 {
        38
    } else if f == 26388402798651 {
        39
    } else if f == 26388360855591 {
        40
    } else if f == 26388480393312 {
        41
    } else if f == 65970857050228 {
        42
    } else if f == 57174797582377 {
        43
    } else if f == 26388467810394 {
        44
    } else if f == 26388463616088 {
        45
    } else if f == 26388419575875 {
        46
    } else if f == 26388459421782 {
        47
    } else if f == 26388417478722 {
        48
    } else if f == 26388442644558 {
        49
    } else if f == 26388440547405 {
        50
    } else if f == 26388371341356 {
        51
    } else if f == 26388375535662 {
        52
    } else if f == 26388377632815 {
        53
    } else if f == 70368916144244 {
        54
    } else if f == 74766954266666 {
        55
    } else if f == 57174764028020 {
        56
    } else if f == 43980639174757 {
        57
    } else if f == 61572791664747 {
        58
    } else if f == 30786472378417 {
        59
    } else if f == 30786472378418 {
        60
    } else if f == 30786472378419 {
        61
    } else if f == 30786472378420 {
        62
    } else if f == 30786472378421 {
        63
    } else if f == 30786472378422 {
        64
    } else if f == 30786472378423 {
        65
    } else if f == 30786472378424 {
        66
    } else if f == 30786472378425 {
        67
    } else if f == 35184518889520 {
        68
    } else if f == 57174768222315 {
        69
    } else if f == 70368918241387 {
        70
    } else if f == 74766954266679 {
        71
    } else if f == 74766954266680 {
        72
    } else if f == 74766954266681 {
        73
    } else if f == 74766954266669 {
        74
    } else if f == 74766954266676 {
        75
    } else if f == 74766954266677 {
        76
    } else if f == 74766954266678 {
        77
    } else if f == 74766954266667 {
        78
    } else if f == 74766954266673 {
        79
    } else if f == 74766954266674 {
        80
    } else if f == 74766954266675 {
        81
    } else if f == 74766954266672 {
        82
    } else if f == 74766954266670 {
        83
    } else if f == 52776751071273 {
        86
    } else if f == 35184518889521 {
        87
    } else if f == 35184518889522 {
        88
    } else if f == 92359140311154 {
        96
    } else if f == 79165009166444 {
        97
    } else if f == 74766954266671 {
        98
    } else if f == 74766958461038 {
        99
    } else if f == 61572823122036 {
        100
    } else if f == 39582569594981 {
        102
    } else if f == 57174782902391 {
        103
    } else if f == 52776725905520 {
        104
    } else if f == 65970857050231 {
        105
    } else if f == 70368916144247 {
        106
    } else if f == 35184516792420 {
        107
    } else if f == 65970840273015 {
        108
    } else if f == 61572818927726 {
        109
    } else if f == 48378664714356 {
        110
    } else if f == 48378654228581 {
        111
    } else if f == 65970859147365 {
        113
    } else if f == 70368911949931 {
        119
    } else if f == 74766950072435 {
        125
    } else if f == 79165009166451 {
        126
    } else if f == 39582580080757 {
        127
    } else if f == 65970859147380 {
        163
    } else if f == 92359138213989 {
        164
    } else if f == 83563045191795 {
        165
    } else if f == 65970859147376 {
        166
    } else {
        -1
    }
}

/// The key code that stands for `code`'s LED: Compose (139) shares the Menu
/// key's LED (127).
spec fn led_key_code(code: u16) -> int {
    if code == 139 {
        127
    } else {
        code as int
    }
}

proof fn lemma_key_led_name_decodes(code: u16)
    ensures
        key_led_name(code) matches Some(name) ==> {
            &&& is_key_led_name(name)
            &&& code_of_fingerprint(name_fingerprint(name)) == led_key_code(code)
        },
{
    reveal_strlit("Key: ");
    match code {
        1 => {
            reveal_strlit("Key: Escape");
            assert("Key: Escape"@.subrange(0, 5) =~= "Key: "@);
        },
        2 => {
            reveal_strlit("Key: 1");
            assert("Key: 1"@.subrange(0, 5) =~= "Key: "@);
        },
        3 => {
            reveal_strlit("Key: 2");
            assert("Key: 2"@.subrange(0, 5) =~= "Key: "@);
        },
        4 => {
            reveal_strlit("Key: 3");
            assert("Key: 3"@.subrange(0, 5) =~= "Key: "@);
        },
        5 => {
            reveal_strlit("Key: 4");
            assert("Key: 4"@.subrange(0, 5) =~= "Key: "@);
        },
        6 => {
            reveal_strlit("Key: 5");
            assert("Key: 5"@.subrange(0, 5) =~= "Key: "@);
        },
        7 => {
            reveal_strlit("Key: 6");
            assert("Key: 6"@.subrange(0, 5) =~= "Key: "@);
        },
        8 => {
            reveal_strlit("Key: 7");
            assert("Key: 7"@.subrange(0, 5) =~= "Key: "@);
        },
        9 => {
            reveal_strlit("Key: 8");
            assert("Key: 8"@.subrange(0, 5) =~= "Key: "@);
        },
        10 => {
            reveal_strlit("Key: 9");
            assert("Key: 9"@.subrange(0, 5) =~= "Key: "@);
        },
        11 => {
            reveal_strlit("Key: 0");
            assert("Key: 0"@.subrange(0, 5) =~= "Key: "@);
        },
        12 => {
            reveal_strlit("Key: -");
            assert("Key: -"@.subrange(0, 5) =~= "Key: "@);
        },
        13 => {
            reveal_strlit("Key: =");
            assert("Key: ="@.subrange(0, 5) =~= "Key: "@);
        },
        14 => {
            reveal_strlit("Key: Backspace");
            assert("Key: Backspace"@.subrange(0, 5) =~= "Key: "@);
        },
        15 => {
            reveal_strlit("Key: Tab");
            assert("Key: Tab"@.subrange(0, 5) =~= "Key: "@);
        },
        16 => {
            reveal_strlit("Key: Q");
            assert("Key: Q"@.subrange(0, 5) =~= "Key: "@);
        },
        17 => {
            reveal_strlit("Key: W");
            assert("Key: W"@.subrange(0, 5) =~= "Key: "@);
        },
        18 => {
            reveal_strlit("Key: E");
            assert("Key: E"@.subrange(0, 5) =~= "Key: "@);
        },
        19 => {
            reveal_strlit("Key: R");
            assert("Key: R"@.subrange(0, 5) =~= "Key: "@);
        },
        20 => {
            reveal_strlit("Key: T");
            assert("Key: T"@.subrange(0, 5) =~= "Key: "@);
        },
        21 => {
            reveal_strlit("Key: Y");
            assert("Key: Y"@.subrange(0, 5) =~= "Key: "@);
        },
        22 => {
            reveal_strlit("Key: U");
            assert("Key: U"@.subrange(0, 5) =~= "Key: "@);
        },
        23 => {
            reveal_strlit("Key: I");
            assert("Key: I"@.subrange(0, 5) =~= "Key: "@);
        },
        24 => {
            reveal_strlit("Key: O");
            assert("Key: O"@.subrange(0, 5) =~= "Key: "@);
        },
        25 => {
            reveal_strlit("Key: P");
            assert("Key: P"@.subrange(0, 5) =~= "Key: "@);
        },
        26 => {
            reveal_strlit("Key: [");
            assert("Key: ["@.subrange(0, 5) =~= "Key: "@);
        },
        27 => {
            reveal_strlit("Key: ]");
            assert("Key: ]"@.subrange(0, 5) =~= "Key: "@);
        },
        28 => {
            reveal_strlit("Key: Enter");
            assert("Key: Enter"@.subrange(0, 5) =~= "Key: "@);
        },
        29 => {
            reveal_strlit("Key: Left Control");
            assert("Key: Left Control"@.subrange(0, 5) =~= "Key: "@);
        },
        30 => {
            reveal_strlit("Key: A");
            assert("Key: A"@.subrange(0, 5) =~= "Key: "@);
        },
        31 => {
            reveal_strlit("Key: S");
            assert("Key: S"@.subrange(0, 5) =~= "Key: "@);
        },
        32 => {
            reveal_strlit("Key: D");
            assert("Key: D"@.subrange(0, 5) =~= "Key: "@);
        },
        33 => {
            reveal_strlit("Key: F");
            assert("Key: F"@.subrange(0, 5) =~= "Key: "@);
        },
        34 => {
            reveal_strlit("Key: G");
            assert("Key: G"@.subrange(0, 5) =~= "Key: "@);
        },
        35 => {
            reveal_strlit("Key: H");
            assert("Key: H"@.subrange(0, 5) =~= "Key: "@);
        },
        36 => {
            reveal_strlit("Key: J");
            assert("Key: J"@.subrange(0, 5) =~= "Key: "@);
        },
        37 => {
            reveal_strlit("Key: K");
            assert("Key: K"@.subrange(0, 5) =~= "Key: "@);
        },
        38 => {
            reveal_strlit("Key: L");
            assert("Key: L"@.subrange(0, 5) =~= "Key: "@);
        },
        39 => {
            reveal_strlit("Key: ;");
            assert("Key: ;"@.subrange(0, 5) =~= "Key: "@);
        },
        40 => {
            reveal_strlit("Key: '");
            assert("Key: '"@.subrange(0, 5) =~= "Key: "@);
        },
        41 => {
            reveal_strlit("Key: `");
            assert("Key: `"@.subrange(0, 5) =~= "Key: "@);
        },
        42 => {
            reveal_strlit("Key: Left Shift");
            assert("Key: Left Shift"@.subrange(0, 5) =~= "Key: "@);
        },
        43 => {
            reveal_strlit("Key: \\ (ANSI)");
            assert("Key: \\ (ANSI)"@.subrange(0, 5) =~= "Key: "@);
        },
        44 => {
            reveal_strlit("Key: Z");
            assert("Key: Z"@.subrange(0, 5) =~= "Key: "@);
        },
        45 => {
            reveal_strlit("Key: X");
            assert("Key: X"@.subrange(0, 5) =~= "Key: "@);
        },
        46 => {
            reveal_strlit("Key: C");
            assert("Key: C"@.subrange(0, 5) =~= "Key: "@);
        },
        47 => {
            reveal_strlit("Key: V");
            assert("Key: V"@.subrange(0, 5) =~= "Key: "@);
        },
        48 => {
            reveal_strlit("Key: B");
            assert("Key: B"@.subrange(0, 5) =~= "Key: "@);
        },
        49 => {
            reveal_strlit("Key: N");
            assert("Key: N"@.subrange(0, 5) =~= "Key: "@);
        },
        50 => {
            reveal_strlit("Key: M");
            assert("Key: M"@.subrange(0, 5) =~= "Key: "@);
        },
        51 => {
            reveal_strlit("Key: ,");
            assert("Key: ,"@.subrange(0, 5) =~= "Key: "@);
        },
        52 => {
            reveal_strlit("Key: .");
            assert("Key: ."@.subrange(0, 5) =~= "Key: "@);
        },
        53 => {
            reveal_strlit("Key: /");
            assert("Key: /"@.subrange(0, 5) =~= "Key: "@);
        },
        54 => {
            reveal_strlit("Key: Right Shift");
            assert("Key: Right Shift"@.subrange(0, 5) =~= "Key: "@);
        },
        55 => {
            reveal_strlit("Key: Number Pad *");
            assert("Key: Number Pad *"@.subrange(0, 5) =~= "Key: "@);
        },
        56 => {
            reveal_strlit("Key: Left Alt");
            assert("Key: Left Alt"@.subrange(0, 5) =~= "Key: "@);
        },
        57 => {
            reveal_strlit("Key: Space");
            assert("Key: Space"@.subrange(0, 5) =~= "Key: "@);
        },
        58 => {
            reveal_strlit("Key: Caps Lock");
            assert("Key: Caps Lock"@.subrange(0, 5) =~= "Key: "@);
        },
        59 => {
            reveal_strlit("Key: F1");
            assert("Key: F1"@.subrange(0, 5) =~= "Key: "@);
        },
        60 => {
            reveal_strlit("Key: F2");
            assert("Key: F2"@.subrange(0, 5) =~= "Key: "@);
        },
        61 => {
            reveal_strlit("Key: F3");
            assert("Key: F3"@.subrange(0, 5) =~= "Key: "@);
        },
        62 => {
            reveal_strlit("Key: F4");
            assert("Key: F4"@.subrange(0, 5) =~= "Key: "@);
        },
        63 => {
            reveal_strlit("Key: F5");
            assert("Key: F5"@.subrange(0, 5) =~= "Key: "@);
        },
        64 => {
            reveal_strlit("Key: F6");
            assert("Key: F6"@.subrange(0, 5) =~= "Key: "@);
        },
        65 => {
            reveal_strlit("Key: F7");
            assert("Key: F7"@.subrange(0, 5) =~= "Key: "@);
        },
        66 => {
            reveal_strlit("Key: F8");
            assert("Key: F8"@.subrange(0, 5) =~= "Key: "@);
        },
        67 => {
            reveal_strlit("Key: F9");
            assert("Key: F9"@.subrange(0, 5) =~= "Key: "@);
        },
        68 => {
            reveal_strlit("Key: F10");
            assert("Key: F10"@.subrange(0, 5) =~= "Key: "@);
        },
        69 => {
            reveal_strlit("Key: Num Lock");
            assert("Key: Num Lock"@.subrange(0, 5) =~= "Key: "@);
        },
        70 => {
            reveal_strlit("Key: Scroll Lock");
            assert("Key: Scroll Lock"@.subrange(0, 5) =~= "Key: "@);
        },
        71 => {
            reveal_strlit("Key: Number Pad 7");
            assert("Key: Number Pad 7"@.subrange(0, 5) =~= "Key: "@);
        },
        72 => {
            reveal_strlit("Key: Number Pad 8");
            assert("Key: Number Pad 8"@.subrange(0, 5) =~= "Key: "@);
        },
        73 => {
            reveal_strlit("Key: Number Pad 9");
            assert("Key: Number Pad 9"@.subrange(0, 5) =~= "Key: "@);
        },
        74 => {
            reveal_strlit("Key: Number Pad -");
            assert("Key: Number Pad -"@.subrange(0, 5) =~= "Key: "@);
        },
        75 => {
            reveal_strlit("Key: Number Pad 4");
            assert("Key: Number Pad 4"@.subrange(0, 5) =~= "Key: "@);
        },
        76 => {
            reveal_strlit("Key: Number Pad 5");
            assert("Key: Number Pad 5"@.subrange(0, 5) =~= "Key: "@);
        },
        77 => {
            reveal_strlit("Key: Number Pad 6");
            assert("Key: Number Pad 6"@.subrange(0, 5) =~= "Key: "@);
        },
        78 => {
            reveal_strlit("Key: Number Pad +");
            assert("Key: Number Pad +"@.subrange(0, 5) =~= "Key: "@);
        },
        79 => {
            reveal_strlit("Key: Number Pad 1");
            assert("Key: Number Pad 1"@.subrange(0, 5) =~= "Key: "@);
        },
        80 => {
            reveal_strlit("Key: Number Pad 2");
            assert("Key: Number Pad 2"@.subrange(0, 5) =~= "Key: "@);
        },
        81 => {
            reveal_strlit("Key: Number Pad 3");
            assert("Key: Number Pad 3"@.subrange(0, 5) =~= "Key: "@);
        },
        82 => {
            reveal_strlit("Key: Number Pad 0");
            assert("Key: Number Pad 0"@.subrange(0, 5) =~= "Key: "@);
        },
        83 => {
            reveal_strlit("Key: Number Pad .");
            assert("Key: Number Pad ."@.subrange(0, 5) =~= "Key: "@);
        },
        86 => {
            reveal_strlit("Key: \\ (ISO)");
            assert("Key: \\ (ISO)"@.subrange(0, 5) =~= "Key: "@);
        },
        87 => {
            reveal_strlit("Key: F11");
            assert("Key: F11"@.subrange(0, 5) =~= "Key: "@);
        },
        88 => {
            reveal_strlit("Key: F12");
            assert("Key: F12"@.subrange(0, 5) =~= "Key: "@);
        },
        96 => {
            reveal_strlit("Key: Number Pad Enter");
            assert("Key: Number Pad Enter"@.subrange(0, 5) =~= "Key: "@);
        },
        97 => {
            reveal_strlit("Key: Right Control");
            assert("Key: Right Control"@.subrange(0, 5) =~= "Key: "@);
        },
        98 => {
            reveal_strlit("Key: Number Pad /");
            assert("Key: Number Pad /"@.subrange(0, 5) =~= "Key: "@);
        },
        99 => {
            reveal_strlit("Key: Print Screen");
            assert("Key: Print Screen"@.subrange(0, 5) =~= "Key: "@);
        },
        100 => {
            reveal_strlit("Key: Right Alt");
            assert("Key: Right Alt"@.subrange(0, 5) =~= "Key: "@);
        },
        102 => {
            reveal_strlit("Key: Home");
            assert("Key: Home"@.subrange(0, 5) =~= "Key: "@);
        },
        103 => {
            reveal_strlit("Key: Up Arrow");
            assert("Key: Up Arrow"@.subrange(0, 5) =~= "Key: "@);
        },
        104 => {
            reveal_strlit("Key: Page Up");
            assert("Key: Page Up"@.subrange(0, 5) =~= "Key: "@);
        },
        105 => {
            reveal_strlit("Key: Left Arrow");
            assert("Key: Left Arrow"@.subrange(0, 5) =~= "Key: "@);
        },
        106 => {
            reveal_strlit("Key: Right Arrow");
            assert("Key: Right Arrow"@.subrange(0, 5) =~= "Key: "@);
        },
        107 => {
            reveal_strlit("Key: End");
            assert("Key: End"@.subrange(0, 5) =~= "Key: "@);
        },
        108 => {
            reveal_strlit("Key: Down Arrow");
            assert("Key: Down Arrow"@.subrange(0, 5) =~= "Key: "@);
        },
        109 => {
            reveal_strlit("Key: Page Down");
            assert("Key: Page Down"@.subrange(0, 5) =~= "Key: "@);
        },
        110 => {
            reveal_strlit("Key: Insert");
            assert("Key: Insert"@.subrange(0, 5) =~= "Key: "@);
        },
        111 => {
            reveal_strlit("Key: Delete");
            assert("Key: Delete"@.subrange(0, 5) =~= "Key: "@);
        },
        113 => {
            reveal_strlit("Key: Media Mute");
            assert("Key: Media Mute"@.subrange(0, 5) =~= "Key: "@);
        },
        119 => {
            reveal_strlit("Key: Pause/Break");
            assert("Key: Pause/Break"@.subrange(0, 5) =~= "Key: "@);
        },
        125 => {
            reveal_strlit("Key: Left Windows");
            assert("Key: Left Windows"@.subrange(0, 5) =~= "Key: "@);
        },
        126 => {
            reveal_strlit("Key: Right Windows");
            assert("Key: Right Windows"@.subrange(0, 5) =~= "Key: "@);
        },
        127 => {
            reveal_strlit("Key: Menu");
            assert("Key: Menu"@.subrange(0, 5) =~= "Key: "@);
        },
        139 => {
            reveal_strlit("Key: Menu");
            assert("Key: Menu"@.subrange(0, 5) =~= "Key: "@);
        },
        163 => {
            reveal_strlit("Key: Media Next");
            assert("Key: Media Next"@.subrange(0, 5) =~= "Key: "@);
        },
        164 => {
            reveal_strlit("Key: Media Play/Pause");
            assert("Key: Media Play/Pause"@.subrange(0, 5) =~= "Key: "@);
        },
        165 => {
            reveal_strlit("Key: Media Previous");
            assert("Key: Media Previous"@.subrange(0, 5) =~= "Key: "@);
        },
        166 => {
            reveal_strlit("Key: Media Stop");
            assert("Key: Media Stop"@.subrange(0, 5) =~= "Key: "@);
        },
        _ => {},
    }
}

/// Every LED name of the key table starts with "Key: ", and distinct key
/// codes name distinct LEDs, except Menu (127) and Compose (139), which
/// share the "Key: Menu" LED.
pub proof fn lemma_key_led_names_distinct(code1: u16, code2: u16)
    requires
        key_led_name(code1) is Some,
        key_led_name(code2) is Some,
        code1 != code2,
    ensures
        is_key_led_name(key_led_name(code1)->0),
        is_key_led_name(key_led_name(code2)->0),
        key_led_name(code1) != key_led_name(code2) || (
            (code1 == 127 && code2 == 139 || code1 == 139 && code2 == 127)
            && key_led_name(code1) == Some("Key: Menu"@)),
{
    lemma_key_led_name_decodes(code1);
    lemma_key_led_name_decodes(code2);
}

/// The LED name of every key of the G513, exactly as OpenRGB names the LEDs
/// of the G810-family driver; every other key code has no LED.
pub proof fn lemma_key_led_names_exact(code: u16)
    ensures
        key_led_name(1) == Some("Key: Escape"@),
        key_led_name(2) == Some("Key: 1"@),
        key_led_name(3) == Some("Key: 2"@),
        key_led_name(4) == Some("Key: 3"@),
        key_led_name(5) == Some("Key: 4"@),
        key_led_name(6) == Some("Key: 5"@),
        key_led_name(7) == Some("Key: 6"@),
        key_led_name(8) == Some("Key: 7"@),
        key_led_name(9) == Some("Key: 8"@),
        key_led_name(10) == Some("Key: 9"@),
        key_led_name(11) == Some("Key: 0"@),
        key_led_name(12) == Some("Key: -"@),
        key_led_name(13) == Some("Key: ="@),
        key_led_name(14) == Some("Key: Backspace"@),
        key_led_name(15) == Some("Key: Tab"@),
        key_led_name(16) == Some("Key: Q"@),
        key_led_name(17) == Some("Key: W"@),
        key_led_name(18) == Some("Key: E"@),
        key_led_name(19) == Some("Key: R"@),
        key_led_name(20) == Some("Key: T"@),
        key_led_name(21) == Some("Key: Y"@),
        key_led_name(22) == Some("Key: U"@),
        key_led_name(23) == Some("Key: I"@),
        key_led_name(24) == Some("Key: O"@),
        key_led_name(25) == Some("Key: P"@),
        key_led_name(26) == Some("Key: ["@),
        key_led_name(27) == Some("Key: ]"@),
        key_led_name(28) == Some("Key: Enter"@),
        key_led_name(29) == Some("Key: Left Control"@),
        key_led_name(30) == Some("Key: A"@),
        key_led_name(31) == Some("Key: S"@),
        key_led_name(32) == Some("Key: D"@),
        key_led_name(33) == Some("Key: F"@),
        key_led_name(34) == Some("Key: G"@),
        key_led_name(35) == Some("Key: H"@),
        key_led_name(36) == Some("Key: J"@),
        key_led_name(37) == Some("Key: K"@),
        key_led_name(38) == Some("Key: L"@),
        key_led_name(39) == Some("Key: ;"@),
        key_led_name(40) == Some("Key: '"@),
        key_led_name(41) == Some("Key: `"@),
        key_led_name(42) == Some("Key: Left Shift"@),
        key_led_name(43) == Some("Key: \\ (ANSI)"@),
        key_led_name(44) == Some("Key: Z"@),
        key_led_name(45) == Some("Key: X"@),
        key_led_name(46) == Some("Key: C"@),
        key_led_name(47) == Some("Key: V"@),
        key_led_name(48) == Some("Key: B"@),
        key_led_name(49) == Some("Key: N"@),
        key_led_name(50) == Some("Key: M"@),
        key_led_name(51) == Some("Key: ,"@),
        key_led_name(52) == Some("Key: ."@),
        key_led_name(53) == Some("Key: /"@),
        key_led_name(54) == Some("Key: Right Shift"@),
        key_led_name(55) == Some("Key: Number Pad *"@),
        key_led_name(56) == Some("Key: Left Alt"@),
        key_led_name(57) == Some("Key: Space"@),
        key_led_name(58) == Some("Key: Caps Lock"@),
        key_led_name(59) == Some("Key: F1"@),
        key_led_name(60) == Some("Key: F2"@),
        key_led_name(61) == Some("Key: F3"@),
        key_led_name(62) == Some("Key: F4"@),
        key_led_name(63) == Some("Key: F5"@),
        key_led_name(64) == Some("Key: F6"@),
        key_led_name(65) == Some("Key: F7"@),
        key_led_name(66) == Some("Key: F8"@),
        key_led_name(67) == Some("Key: F9"@),
        key_led_name(68) == Some("Key: F10"@),
        key_led_name(69) == Some("Key: Num Lock"@),
        key_led_name(70) == Some("Key: Scroll Lock"@),
        key_led_name(71) == Some("Key: Number Pad 7"@),
        key_led_name(72) == Some("Key: Number Pad 8"@),
        key_led_name(73) == Some("Key: Number Pad 9"@),
        key_led_name(74) == Some("Key: Number Pad -"@),
        key_led_name(75) == Some("Key: Number Pad 4"@),
        key_led_name(76) == Some("Key: Number Pad 5"@),
        key_led_name(77) == Some("Key: Number Pad 6"@),
        key_led_name(78) == Some("Key: Number Pad +"@),
        key_led_name(79) == Some("Key: Number Pad 1"@),
        key_led_name(80) == Some("Key: Number Pad 2"@),
        key_led_name(81) == Some("Key: Number Pad 3"@),
        key_led_name(82) == Some("Key: Number Pad 0"@),
        key_led_name(83) == Some("Key: Number Pad ."@),
        key_led_name(86) == Some("Key: \\ (ISO)"@),
        key_led_name(87) == Some("Key: F11"@),
        key_led_name(88) == Some("Key: F12"@),
        key_led_name(96) == Some("Key: Number Pad Enter"@),
        key_led_name(97) == Some("Key: Right Control"@),
        key_led_name(98) == Some("Key: Number Pad /"@),
        key_led_name(99) == Some("Key: Print Screen"@),
        key_led_name(100) == Some("Key: Right Alt"@),
        key_led_name(102) == Some("Key: Home"@),
        key_led_name(103) == Some("Key: Up Arrow"@),
        key_led_name(104) == Some("Key: Page Up"@),
        key_led_name(105) == Some("Key: Left Arrow"@),
        key_led_name(106) == Some("Key: Right Arrow"@),
        key_led_name(107) == Some("Key: End"@),
        key_led_name(108) == Some("Key: Down Arrow"@),
        key_led_name(109) == Some("Key: Page Down"@),
        key_led_name(110) == Some("Key: Insert"@),
        key_led_name(111) == Some("Key: Delete"@),
        key_led_name(113) == Some("Key: Media Mute"@),
        key_led_name(119) == Some("Key: Pause/Break"@),
        key_led_name(125) == Some("Key: Left Windows"@),
        key_led_name(126) == Some("Key: Right Windows"@),
        key_led_name(127) == Some("Key: Menu"@),
        key_led_name(139) == Some("Key: Menu"@),
        key_led_name(163) == Some("Key: Media Next"@),
        key_led_name(164) == Some("Key: Media Play/Pause"@),
        key_led_name(165) == Some("Key: Media Previous"@),
        key_led_name(166) == Some("Key: Media Stop"@),
        !(1 <= code <= 83 || 86 <= code <= 88 || 96 <= code <= 100 || 102 <= code <= 111
            || code == 113 || code == 119 || 125 <= code <= 127 || code == 139 || 163 <= code
            <= 166) ==> key_led_name(code) is None,
{
}

} // verus!
