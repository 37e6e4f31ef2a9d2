//! OpenRGB's physical LED matrix of the G810-family driver that serves the
//! G512/G513, and the matrix cell of each controller LED.

use vstd::prelude::*;

verus! {

/// Rows of the keyboard matrix.
pub const MATRIX_ROWS: usize = 7;

/// Columns of the keyboard matrix.
pub const MATRIX_COLUMNS: usize = 23;

/// Marks a matrix cell without an LED.
pub const UNUSED_LED: i16 = -1;

/// OpenRGB's matrix for the G810-family driver used by the G512/G513. Values
/// are controller LED indexes; gaps preserve the physical spacing between key
/// groups better than the controller's one-dimensional LED order.
pub const KEYBOARD_MATRIX: [[i16; MATRIX_COLUMNS]; MATRIX_ROWS] = [
    [
        111, UNUSED_LED, UNUSED_LED, UNUSED_LED, UNUSED_LED, UNUSED_LED, UNUSED_LED, UNUSED_LED,
        UNUSED_LED, UNUSED_LED, UNUSED_LED, UNUSED_LED, 116, 114, 115, UNUSED_LED, 113, UNUSED_LED,
        112, 110, UNUSED_LED, UNUSED_LED, UNUSED_LED,
    ],
    [
        37, UNUSED_LED, 54, 55, 56, 57, UNUSED_LED, 58, 59, 60, 61, UNUSED_LED, 62, 63, 64, 65, 66,
        67, 68, 109, 108, 107, 106,
    ],
    [
        49, 26, 27, 28, 29, 30, 31, 32, 33, 34, 35, UNUSED_LED, 41, 42, 38, UNUSED_LED, 69, 70, 71,
        79, 80, 81, 82,
    ],
    [
        39, UNUSED_LED, 16, 22, 4, 17, UNUSED_LED, 19, 24, 20, 8, 14, 15, 43, 44, 45, 72, 73, 74,
        91, 92, 93, 83,
    ],
    [
        53, UNUSED_LED, 0, 18, 3, 5, UNUSED_LED, 6, 7, 9, 10, 11, 47, 48, 46, 36, UNUSED_LED,
        UNUSED_LED, UNUSED_LED, 88, 89, 90, UNUSED_LED,
    ],
    [
        99, 96, 25, 23, 2, 21, UNUSED_LED, 1, UNUSED_LED, 13, 12, 50, 51, 52, 103, UNUSED_LED,
        UNUSED_LED, 78, UNUSED_LED, 85, 86, 87, 84,
    ],
    [
        98, 101, 100, UNUSED_LED, UNUSED_LED, UNUSED_LED, UNUSED_LED, 40, UNUSED_LED, UNUSED_LED,
        UNUSED_LED, UNUSED_LED, 104, 105, 97, 102, 76, 77, 75, 94, UNUSED_LED, 95, UNUSED_LED,
    ],
];

/// A cell of the keyboard matrix: its row (from the top) and column (from the
/// left).
#[derive(Clone, Copy, Debug, PartialEq, Eq, Structural)]
pub struct MatrixCell {
    pub row: usize,
    pub column: usize,
}

/// The controller LED index at a cell of the keyboard matrix.
pub open spec fn matrix_led(row: int, column: int) -> i16 {
    KEYBOARD_MATRIX@[row]@[column]
}

/// The cell at `(row, column)` lies in the matrix and holds LED `led`.
pub open spec fn is_cell_of(led: int, row: int, column: int) -> bool {
    &&& 0 <= row < MATRIX_ROWS
    &&& 0 <= column < MATRIX_COLUMNS
    &&& matrix_led(row, column) == led
}

/// `(row1, column1)` comes no later than `(row2, column2)` in row-major order.
pub open spec fn row_major_le(row1: int, column1: int, row2: int, column2: int) -> bool {
    row1 < row2 || (row1 == row2 && column1 <= column2)
}

/// The cell that LED `led` is drawn at: the last cell, in row-major order,
/// that holds it.
pub open spec fn is_last_cell_of(led: int, cell: MatrixCell) -> bool {
    &&& is_cell_of(led, cell.row as int, cell.column as int)
    &&& forall|row: int, column: int|
        #![trigger matrix_led(row, column)]
        is_cell_of(led, row, column) ==> row_major_le(row, column, cell.row as int, cell.column as int)
}

/// What the coordinate table says of LED `led`: its cell, or no cell when the
/// matrix does not hold it.
pub open spec fn coordinate_of(led: int, entry: Option<MatrixCell>) -> bool {
    match entry {
        Some(cell) => is_last_cell_of(led, cell),
        None => forall|row: int, column: int|
            #![trigger matrix_led(row, column)]
            !is_cell_of(led, row, column),
    }
}

/// The part of `coordinate_of` that covers the cells before `(row, column)`
/// in row-major order.
spec fn coordinate_of_upto(led: int, entry: Option<MatrixCell>, row: int, column: int) -> bool {
    match entry {
        Some(cell) => {
            &&& is_cell_of(led, cell.row as int, cell.column as int)
            &&& row_major_le(cell.row as int, cell.column as int, row, column)
            &&& (cell.row, cell.column) != (row as usize, column as usize)
            &&& forall|r: int, c: int|
                #![trigger matrix_led(r, c)]
                is_cell_of(led, r, c) && row_major_le(r, c, row, column) && (r, c) != (row, column)
                    ==> row_major_le(r, c, cell.row as int, cell.column as int)
        },
        None => forall|r: int, c: int|
            #![trigger matrix_led(r, c)]
            is_cell_of(led, r, c) && row_major_le(r, c, row, column) && (r, c) != (row, column)
                ==> false,
    }
}

/// The matrix cell of every controller LED `0..led_count`, or `None` for an
/// LED that the matrix does not hold.
///
/// Where the matrix holds an LED more than once, the last cell in row-major
/// order wins; indexes at or beyond `led_count` are ignored.
pub fn keyboard_coordinates(led_count: usize) -> (r: Vec<Option<MatrixCell>>)
    ensures
        r.len() == led_count,
        forall|led: int| 0 <= led < led_count ==> coordinate_of(led, #[trigger] r@[led]),
{
    let mut coordinates: Vec<Option<MatrixCell>> = Vec::new();
    let mut i: usize = 0;
    while i < led_count
        invariant
            i <= led_count,
            coordinates.len() == i,
            forall|j: int| 0 <= j < i ==> #[trigger] coordinates@[j] is None,
        decreases led_count - i,
    {
        coordinates.push(None);
        i = i + 1;
    }
    let mut row: usize = 0;
    while row < MATRIX_ROWS
        invariant
            row <= MATRIX_ROWS,
            coordinates.len() == led_count,
            forall|led: int|
                0 <= led < led_count ==> coordinate_of_upto(
                    led,
                    #[trigger] coordinates@[led],
                    row as int,
                    0,
                ),
        decreases MATRIX_ROWS - row,
    {
        let mut column: usize = 0;
        while column < MATRIX_COLUMNS
            invariant
                row < MATRIX_ROWS,
                column <= MATRIX_COLUMNS,
                coordinates.len() == led_count,
                forall|led: int|
                    0 <= led < led_count ==> coordinate_of_upto(
                        led,
                        #[trigger] coordinates@[led],
                        row as int,
                        column as int,
                    ),
            decreases MATRIX_COLUMNS - column,
        {
            let led_id = KEYBOARD_MATRIX[row][column];
            let ghost old_coordinates = coordinates@;
            if led_id != UNUSED_LED && led_id >= 0 && (led_id as usize) < coordinates.len() {
                coordinates.set(led_id as usize, Some(MatrixCell { row, column }));
            }
            assert forall|led: int| 0 <= led < led_count implies coordinate_of_upto(
                led,
                #[trigger] coordinates@[led],
                row as int,
                column + 1,
            ) by {
                assert(coordinate_of_upto(led, old_coordinates[led], row as int, column as int));
                assert(matrix_led(row as int, column as int) == led_id);
            }
            column = column + 1;
        }
        assert forall|led: int| 0 <= led < led_count implies coordinate_of_upto(
            led,
            #[trigger] coordinates@[led],
            row + 1,
            0,
        ) by {
            assert(coordinate_of_upto(led, coordinates@[led], row as int, MATRIX_COLUMNS as int));
        }
        row = row + 1;
    }
    assert forall|led: int| 0 <= led < led_count implies coordinate_of(led, #[trigger] coordinates@[led]) by {
        assert(coordinate_of_upto(led, coordinates@[led], MATRIX_ROWS as int, 0));
    }
    coordinates
}

/// The physical position of every controller LED of the G512/G513: LED `k`
/// sits at the matrix cell given here, so each of the LEDs 0 to 116 has a
/// cell and gets a coordinate.
pub proof fn lemma_every_keyboard_led_has_a_cell()
    ensures
        is_cell_of(0, 4, 2),
        is_cell_of(1, 5, 7),
        is_cell_of(2, 5, 4),
        is_cell_of(3, 4, 4),
        is_cell_of(4, 3, 4),
        is_cell_of(5, 4, 5),
        is_cell_of(6, 4, 7),
        is_cell_of(7, 4, 8),
        is_cell_of(8, 3, 10),
        is_cell_of(9, 4, 9),
        is_cell_of(10, 4, 10),
        is_cell_of(11, 4, 11),
        is_cell_of(12, 5, 10),
        is_cell_of(13, 5, 9),
        is_cell_of(14, 3, 11),
        is_cell_of(15, 3, 12),
        is_cell_of(16, 3, 2),
        is_cell_of(17, 3, 5),
        is_cell_of(18, 4, 3),
        is_cell_of(19, 3, 7),
        is_cell_of(20, 3, 9),
        is_cell_of(21, 5, 5),
        is_cell_of(22, 3, 3),
        is_cell_of(23, 5, 3),
        is_cell_of(24, 3, 8),
        is_cell_of(25, 5, 2),
        is_cell_of(26, 2, 1),
        is_cell_of(27, 2, 2),
        is_cell_of(28, 2, 3),
        is_cell_of(29, 2, 4),
        is_cell_of(30, 2, 5),
        is_cell_of(31, 2, 6),
        is_cell_of(32, 2, 7),
        is_cell_of(33, 2, 8),
        is_cell_of(34, 2, 9),
        is_cell_of(35, 2, 10),
        is_cell_of(36, 4, 15),
        is_cell_of(37, 1, 0),
        is_cell_of(38, 2, 14),
        is_cell_of(39, 3, 0),
        is_cell_of(40, 6, 7),
        is_cell_of(41, 2, 12),
        is_cell_of(42, 2, 13),
        is_cell_of(43, 3, 13),
        is_cell_of(44, 3, 14),
        is_cell_of(45, 3, 15),
        is_cell_of(46, 4, 14),
        is_cell_of(47, 4, 12),
        is_cell_of(48, 4, 13),
        is_cell_of(49, 2, 0),
        is_cell_of(50, 5, 11),
        is_cell_of(51, 5, 12),
        is_cell_of(52, 5, 13),
        is_cell_of(53, 4, 0),
        is_cell_of(54, 1, 2),
        is_cell_of(55, 1, 3),
        is_cell_of(56, 1, 4),
        is_cell_of(57, 1, 5),
        is_cell_of(58, 1, 7),
        is_cell_of(59, 1, 8),
        is_cell_of(60, 1, 9),
        is_cell_of(61, 1, 10),
        is_cell_of(62, 1, 12),
        is_cell_of(63, 1, 13),
        is_cell_of(64, 1, 14),
        is_cell_of(65, 1, 15),
        is_cell_of(66, 1, 16),
        is_cell_of(67, 1, 17),
        is_cell_of(68, 1, 18),
        is_cell_of(69, 2, 16),
        is_cell_of(70, 2, 17),
        is_cell_of(71, 2, 18),
        is_cell_of(72, 3, 16),
        is_cell_of(73, 3, 17),
        is_cell_of(74, 3, 18),
        is_cell_of(75, 6, 18),
        is_cell_of(76, 6, 16),
        is_cell_of(77, 6, 17),
        is_cell_of(78, 5, 17),
        is_cell_of(79, 2, 19),
        is_cell_of(80, 2, 20),
        is_cell_of(81, 2, 21),
        is_cell_of(82, 2, 22),
        is_cell_of(83, 3, 22),
        is_cell_of(84, 5, 22),
        is_cell_of(85, 5, 19),
        is_cell_of(86, 5, 20),
        is_cell_of(87, 5, 21),
        is_cell_of(88, 4, 19),
        is_cell_of(89, 4, 20),
        is_cell_of(90, 4, 21),
        is_cell_of(91, 3, 19),
        is_cell_of(92, 3, 20),
        is_cell_of(93, 3, 21),
        is_cell_of(94, 6, 19),
        is_cell_of(95, 6, 21),
        is_cell_of(96, 5, 1),
        is_cell_of(97, 6, 14),
        is_cell_of(98, 6, 0),
        is_cell_of(99, 5, 0),
        is_cell_of(100, 6, 2),
        is_cell_of(101, 6, 1),
        is_cell_of(102, 6, 15),
        is_cell_of(103, 5, 14),
        is_cell_of(104, 6, 12),
        is_cell_of(105, 6, 13),
        is_cell_of(106, 1, 22),
        is_cell_of(107, 1, 21),
        is_cell_of(108, 1, 20),
        is_cell_of(109, 1, 19),
        is_cell_of(110, 0, 19),
        is_cell_of(111, 0, 0),
        is_cell_of(112, 0, 18),
        is_cell_of(113, 0, 16),
        is_cell_of(114, 0, 13),
        is_cell_of(115, 0, 14),
        is_cell_of(116, 0, 12),
{
}

/// Every LED from 0 to 116 gets a cell: in a coordinate table covering at
/// least those LEDs, none of them is left without a coordinate.
pub proof fn lemma_no_keyboard_led_is_left_out(coordinates: Seq<Option<MatrixCell>>)
    requires
        coordinates.len() >= 117,
        forall|led: int| 0 <= led < coordinates.len() ==> coordinate_of(led, #[trigger] coordinates[led]),
    ensures
        forall|led: int| 0 <= led < 117 ==> #[trigger] coordinates[led] is Some,
{
    lemma_every_keyboard_led_has_a_cell();
    assert forall|led: int| 0 <= led < 117 implies #[trigger] coordinates[led] is Some by {
        let (row, column) = led_cell(led);
        assert(is_cell_of(led, row, column));
        assert(coordinate_of(led, coordinates[led]));
    }
}

/// The cell that `lemma_every_keyboard_led_has_a_cell` gives each LED.
spec fn led_cell(led: int) -> (int, int) {
    if led == 0 {
        (4, 2)
    } else if led == 1 {
        (5, 7)
    } else if led == 2 {
        (5, 4)
    } else if led == 3 {
        (4, 4)
    } else if led == 4 {
        (3, 4)
    } else if led == 5 {
        (4, 5)
    } else if led == 6 {
        (4, 7)
    } else if led == 7 {
        (4, 8)
    } else if led == 8 {
        (3, 10)
    } else if led == 9 {
        (4, 9)
    } else if led == 10 {
        (4, 10)
    } else if led == 11 {
        (4, 11)
    } else if led == 12 {
        (5, 10)
    } else if led == 13 {
        (5, 9)
    } else if led == 14 {
        (3, 11)
    } else if led == 15 {
        (3, 12)
    } else if led == 16 {
        (3, 2)
    } else if led == 17 {
        (3, 5)
    } else if led == 18 {
        (4, 3)
    } else if led == 19 {
        (3, 7)
    } else if led == 20 {
        (3, 9)
    } else if led == 21 {
        (5, 5)
    } else if led == 22 {
        (3, 3)
    } else if led == 23 {
        (5, 3)
    } else if led == 24 {
        (3, 8)
    } else if led == 25 {
        (5, 2)
    } else if led == 26 {
        (2, 1)
    } else if led == 27 {
        (2, 2)
    } else if led == 28 {
        (2, 3)
    } else if led == 29 {
        (2, 4)
    } else if led == 30 {
        (2, 5)
    } else if led == 31 {
        (2, 6)
    } else if led == 32 {
        (2, 7)
    } else if led == 33 {
        (2, 8)
    } else if led == 34 {
        (2, 9)
    } else if led == 35 {
        (2, 10)
    } else if led == 36 {
        (4, 15)
    } else if led == 37 {
        (1, 0)
    } else if led == 38 {
        (2, 14)
    } else if led == 39 {
        (3, 0)
    } else if led == 40 {
        (6, 7)
    } else if led == 41 {
        (2, 12)
    } else if led == 42 {
        (2, 13)
    } else if led == 43 {
        (3, 13)
    } else if led == 44 {
        (3, 14)
    } else if led == 45 {
        (3, 15)
    } else if led == 46 {
        (4, 14)
    } else if led == 47 {
        (4, 12)
    } else if led == 48 {
        (4, 13)
    } else if led == 49 {
        (2, 0)
    } else if led == 50 {
        (5, 11)
    } else if led == 51 {
        (5, 12)
    } else if led == 52 {
        (5, 13)
    } else if led == 53 {
        (4, 0)
    } else if led == 54 {
        (1, 2)
    } else if led == 55 {
        (1, 3)
    } else if led == 56 {
        (1, 4)
    } else if led == 57 {
        (1, 5)
    } else if led == 58 {
        (1, 7)
    } else if led == 59 {
        (1, 8)
    } else if led == 60 {
        (1, 9)
    } else if led == 61 {
        (1, 10)
    } else if led == 62 {
        (1, 12)
    } else if led == 63 {
        (1, 13)
    } else if led == 64 {
        (1, 14)
    } else if led == 65 {
        (1, 15)
    } else if led == 66 {
        (1, 16)
    } else if led == 67 {
        (1, 17)
    } else if led == 68 {
        (1, 18)
    } else if led == 69 {
        (2, 16)
    } else if led == 70 {
        (2, 17)
    } else if led == 71 {
        (2, 18)
    } else if led == 72 {
        (3, 16)
    } else if led == 73 {
        (3, 17)
    } else if led == 74 {
        (3, 18)
    } else if led == 75 {
        (6, 18)
    } else if led == 76 {
        (6, 16)
    } else if led == 77 {
        (6, 17)
    } else if led == 78 {
        (5, 17)
    } else if led == 79 {
        (2, 19)
    } else if led == 80 {
        (2, 20)
    } else if led == 81 {
        (2, 21)
    } else if led == 82 {
        (2, 22)
    } else if led == 83 {
        (3, 22)
    } else if led == 84 {
        (5, 22)
    } else if led == 85 {
        (5, 19)
    } else if led == 86 {
        (5, 20)
    } else if led == 87 {
        (5, 21)
    } else if led == 88 {
        (4, 19)
    } else if led == 89 {
        (4, 20)
    } else if led == 90 {
        (4, 21)
    } else if led == 91 {
        (3, 19)
    } else if led == 92 {
        (3, 20)
    } else if led == 93 {
        (3, 21)
    } else if led == 94 {
        (6, 19)
    } else if led == 95 {
        (6, 21)
    } else if led == 96 {
        (5, 1)
    } else if led == 97 {
        (6, 14)
    } else if led == 98 {
        (6, 0)
    } else if led == 99 {
        (5, 0)
    } else if led == 100 {
        (6, 2)
    } else if led == 101 {
        (6, 1)
    } else if led == 102 {
        (6, 15)
    } else if led == 103 {
        (5, 14)
    } else if led == 104 {
        (6, 12)
    } else if led == 105 {
        (6, 13)
    } else if led == 106 {
        (1, 22)
    } else if led == 107 {
        (1, 21)
    } else if led == 108 {
        (1, 20)
    } else if led == 109 {
        (1, 19)
    } else if led == 110 {
        (0, 19)
    } else if led == 111 {
        (0, 0)
    } else if led == 112 {
        (0, 18)
    } else if led == 113 {
        (0, 16)
    } else if led == 114 {
        (0, 13)
    } else if led == 115 {
        (0, 14)
    } else if led == 116 {
        (0, 12)
    } else {
        (0, 0)
    }
}

} // verus!
