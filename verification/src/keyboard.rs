//! The physical keyboard model used by the on-screen keyboard: the key grid,
//! which finger strikes each key, and the home row.

use vstd::prelude::*;
use vstd::string::StrSliceExecFns;

verus! {

/// The finger assigned to strike a key.
#[derive(Debug, Clone, Copy, PartialEq, Eq, Structural)]
pub enum Finger {
    Pinky,
    Ring,
    Middle,
    IndexLeft,
    IndexRight,
    Thumb,
}

/// One key of the grid: its printed label, its width in cells, the finger
/// that strikes it, and an optional narrower width used when drawing.
#[derive(Debug, Clone)]
pub struct KeyDef {
    pub label: &'static str,
    pub width: u8,
    pub finger: Finger,
    pub visual_width: Option<u8>,
}

/// The ASCII lower-case counterpart of a character; other characters are
/// unchanged.
pub open spec fn to_lower(c: char) -> char {
    if 'A' <= c && c <= 'Z' {
        ((c as u8) + 32) as char
    } else {
        c
    }
}

/// Whether a key's label begins with `key`, compared without ASCII case.
pub open spec fn key_matches(kd: KeyDef, key: char) -> bool {
    kd.label@.len() > 0 && to_lower(kd.label@[0]) == to_lower(key)
}

/// No key strictly before position `(ri, ki)` in row order matches `key`.
pub open spec fn no_match_before(
    rows: Seq<Vec<KeyDef>>,
    key: char,
    ri: int,
    ki: int,
) -> bool {
    forall|a: int, b: int|
        0 <= a < rows.len() && 0 <= b < rows[a]@.len() && (a < ri || (a == ri && b < ki))
            ==> !key_matches(#[trigger] rows[a]@[b], key)
}

/// The key grid and the home-row characters.
pub struct KeyboardLayout {
    rows: Vec<Vec<KeyDef>>,
    home_row: Vec<char>,
}

impl KeyboardLayout {
    /// The rows of the grid.
    pub closed spec fn spec_rows(&self) -> Seq<Vec<KeyDef>> {
        self.rows@
    }

    /// The home-row characters.
    pub closed spec fn spec_home_row(&self) -> Seq<char> {
        self.home_row@
    }

    /// Build the standard ANSI grid: number row, two letter rows, bottom row
    /// and space bar, with the usual touch-typing finger assignment.
    pub fn new() -> (r: Self)
        ensures
            r.spec_rows().len() == 5,
            r.spec_rows()[0]@.len() == 14,
            r.spec_rows()[1]@.len() == 14,
            r.spec_rows()[2]@.len() == 13,
            r.spec_rows()[3]@.len() == 12,
            r.spec_rows()[4]@.len() == 1,
            forall|ri: int, ki: int|
                0 <= ri < r.spec_rows().len() && 0 <= ki < r.spec_rows()[ri]@.len()
                    ==> (#[trigger] r.spec_rows()[ri]@[ki]).width >= 3,
            r.spec_home_row() == seq!['a', 's', 'd', 'f', 'j', 'k', 'l', ';'],
    {
        let rows: Vec<Vec<KeyDef>> = vec![
            // Row 0: Number row
            vec![
                KeyDef {
                    label: "`",
                    width: 3,
                    finger: Finger::Pinky,
                    visual_width: None,
                },
                KeyDef {
                    label: "1",
                    width: 3,
                    finger: Finger::Pinky,
                    visual_width: None,
                },
                KeyDef {
                    label: "2",
                    width: 3,
                    finger: Finger::Pinky,
                    visual_width: None,
                },
                KeyDef {
                    label: "3",
                    width: 3,
                    finger: Finger::Ring,
                    visual_width: None,
                },
                KeyDef {
                    label: "4",
                    width: 3,
                    finger: Finger::Ring,
                    visual_width: None,
                },
                KeyDef {
                    label: "5",
                    width: 3,
                    finger: Finger::Ring,
                    visual_width: None,
                },
                KeyDef {
                    label: "6",
                    width: 3,
                    finger: Finger::Ring,
                    visual_width: None,
                },
                KeyDef {
                    label: "7",
                    width: 3,
                    finger: Finger::Ring,
                    visual_width: None,
                },
                KeyDef {
                    label: "8",
                    width: 3,
                    finger: Finger::Ring,
                    visual_width: None,
                },
                KeyDef {
                    label: "9",
                    width: 3,
                    finger: Finger::Ring,
                    visual_width: None,
                },
                KeyDef {
                    label: "0",
                    width: 3,
                    finger: Finger::Ring,
                    visual_width: None,
                },
                KeyDef {
                    label: "-",
                    width: 3,
                    finger: Finger::Pinky,
                    visual_width: None,
                },
                KeyDef {
                    label: "=",
                    width: 3,
                    finger: Finger::Pinky,
                    visual_width: None,
                },
                KeyDef {
                    label: "←",
                    width: 4,
                    finger: Finger::Pinky,
                    visual_width: Some(1),
                },
            ],
            // Row 1: QWERTY row
            vec![
                KeyDef {
                    label: "⇥",
                    width: 4,
                    finger: Finger::Pinky,
                    visual_width: Some(1),
                },
                KeyDef {
                    label: "q",
                    width: 3,
                    finger: Finger::Pinky,
                    visual_width: None,
                },
                KeyDef {
                    label: "w",
                    width: 3,
                    finger: Finger::Ring,
                    visual_width: None,
                },
                KeyDef {
                    label: "e",
                    width: 3,
                    finger: Finger::Middle,
                    visual_width: None,
                },
                KeyDef {
                    label: "r",
                    width: 3,
                    finger: Finger::IndexLeft,
                    visual_width: None,
                },
                KeyDef {
                    label: "t",
                    width: 3,
                    finger: Finger::IndexLeft,
                    visual_width: None,
                },
                KeyDef {
                    label: "y",
                    width: 3,
                    finger: Finger::IndexRight,
                    visual_width: None,
                },
                KeyDef {
                    label: "u",
                    width: 3,
                    finger: Finger::IndexRight,
                    visual_width: None,
                },
                KeyDef {
                    label: "i",
                    width: 3,
                    finger: Finger::Middle,
                    visual_width: None,
                },
                KeyDef {
                    label: "o",
                    width: 3,
                    finger: Finger::Ring,
                    visual_width: None,
                },
                KeyDef {
                    label: "p",
                    width: 3,
                    finger: Finger::Pinky,
                    visual_width: None,
                },
                KeyDef {
                    label: "[",
                    width: 3,
                    finger: Finger::Pinky,
                    visual_width: None,
                },
                KeyDef {
                    label: "]",
                    width: 3,
                    finger: Finger::Pinky,
                    visual_width: None,
                },
                KeyDef {
                    label: "\\",
                    width: 3,
                    finger: Finger::Pinky,
                    visual_width: None,
                },
            ],
            // Row 2: Home row (ASDF)
            vec![
                KeyDef {
                    label: "⇪",
                    width: 6,
                    finger: Finger::Pinky,
                    visual_width: Some(1),
                },
                KeyDef {
                    label: "a",
                    width: 3,
                    finger: Finger::Pinky,
                    visual_width: None,
                },
                KeyDef {
                    label: "s",
                    width: 3,
                    finger: Finger::Ring,
                    visual_width: None,
                },
                KeyDef {
                    label: "d",
                    width: 3,
                    finger: Finger::Middle,
                    visual_width: None,
                },
                KeyDef {
                    label: "f",
                    width: 3,
                    finger: Finger::IndexLeft,
                    visual_width: None,
                },
                KeyDef {
                    label: "g",
                    width: 3,
                    finger: Finger::IndexLeft,
                    visual_width: None,
                },
                KeyDef {
                    label: "h",
                    width: 3,
                    finger: Finger::IndexRight,
                    visual_width: None,
                },
                KeyDef {
                    label: "j",
                    width: 3,
                    finger: Finger::IndexRight,
                    visual_width: None,
                },
                KeyDef {
                    label: "k",
                    width: 3,
                    finger: Finger::Middle,
                    visual_width: None,
                },
                KeyDef {
                    label: "l",
                    width: 3,
                    finger: Finger::Ring,
                    visual_width: None,
                },
                KeyDef {
                    label: ";",
                    width: 3,
                    finger: Finger::Pinky,
                    visual_width: None,
                },
                KeyDef {
                    label: "'",
                    width: 3,
                    finger: Finger::Pinky,
                    visual_width: None,
                },
                KeyDef {
                    label: "↵",
                    width: 5,
                    finger: Finger::Pinky,
                    visual_width: Some(1),
                },
            ],
            // Row 3: Bottom row (ZXCV)
            vec![
                KeyDef {
                    label: "⇧",
                    width: 7,
                    finger: Finger::Pinky,
                    visual_width: Some(1),
                },
                KeyDef {
                    label: "z",
                    width: 3,
                    finger: Finger::Pinky,
                    visual_width: None,
                },
                KeyDef {
                    label: "x",
                    width: 3,
                    finger: Finger::Ring,
                    visual_width: None,
                },
                KeyDef {
                    label: "c",
                    width: 3,
                    finger: Finger::Middle,
                    visual_width: None,
                },
                KeyDef {
                    label: "v",
                    width: 3,
                    finger: Finger::IndexLeft,
                    visual_width: None,
                },
                KeyDef {
                    label: "b",
                    width: 3,
                    finger: Finger::IndexLeft,
                    visual_width: None,
                },
                KeyDef {
                    label: "n",
                    width: 3,
                    finger: Finger::IndexRight,
                    visual_width: None,
                },
                KeyDef {
                    label: "m",
                    width: 3,
                    finger: Finger::IndexRight,
                    visual_width: None,
                },
                KeyDef {
                    label: ",",
                    width: 3,
                    finger: Finger::Middle,
                    visual_width: None,
                },
                KeyDef {
                    label: ".",
                    width: 3,
                    finger: Finger::Ring,
                    visual_width: None,
                },
                KeyDef {
                    label: "/",
                    width: 3,
                    finger: Finger::Pinky,
                    visual_width: None,
                },
                KeyDef {
                    label: "⇧",
                    width: 8,
                    finger: Finger::Pinky,
                    visual_width: Some(1),
                },
            ],
            // Row 4: Spacebar
            vec![KeyDef {
                label: " ",
                width: 15,
                finger: Finger::Thumb,
                visual_width: None,
            }],
        ];

        let home_row = vec!['a', 's', 'd', 'f', 'j', 'k', 'l', ';'];

        Self { rows, home_row }
    }

    /// The ASCII lower-case counterpart of a character.
    fn lower_char(c: char) -> (r: char)
        ensures
            r == to_lower(c),
    {
        if 'A' <= c && c <= 'Z' {
            ((c as u8) + 32) as char
        } else {
            c
        }
    }

    /// The finger assigned to the first key, in row order, whose label
    /// begins with `key` (without ASCII case), or `None` when no key does.
    pub fn get_finger(&self, key: char) -> (r: Option<Finger>)
        ensures
            r is Some <==> exists|ri: int, ki: int|
                0 <= ri < self.spec_rows().len() && 0 <= ki < self.spec_rows()[ri]@.len()
                    && key_matches(#[trigger] self.spec_rows()[ri]@[ki], key),
            r matches Some(f) ==> exists|ri: int, ki: int|
                0 <= ri < self.spec_rows().len() && 0 <= ki < self.spec_rows()[ri]@.len()
                    && key_matches(#[trigger] self.spec_rows()[ri]@[ki], key)
                    && self.spec_rows()[ri]@[ki].finger == f
                    && no_match_before(self.spec_rows(), key, ri, ki),
    {
        let key_lower = Self::lower_char(key);
        let mut ri: usize = 0;
        let nr = self.rows.len();
        while ri < nr
            invariant
                nr == self.spec_rows().len(),
                ri <= nr,
                key_lower == to_lower(key),
                forall|a: int, b: int|
                    0 <= a < ri && 0 <= b < self.spec_rows()[a]@.len() ==> !key_matches(
                        #[trigger] self.spec_rows()[a]@[b],
                        key,
                    ),
            decreases nr - ri,
        {
            let row = &self.rows[ri];
            let mut ki: usize = 0;
            let nk = row.len();
            while ki < nk
                invariant
                    nk == row@.len(),
                    row@ == self.spec_rows()[ri as int]@,
                    ri < self.spec_rows().len(),
                    ki <= nk,
                    key_lower == to_lower(key),
                    forall|a: int, b: int|
                        0 <= a < ri && 0 <= b < self.spec_rows()[a]@.len() ==> !key_matches(
                            #[trigger] self.spec_rows()[a]@[b],
                            key,
                        ),
                    forall|b: int|
                        0 <= b < ki ==> !key_matches(
                            #[trigger] self.spec_rows()[ri as int]@[b],
                            key,
                        ),
                decreases nk - ki,
            {
                let kd = &row[ki];
                if kd.label.unicode_len() > 0 {
                    let first = kd.label.get_char(0);
                    if Self::lower_char(first) == key_lower {
                        proof {
                            assert(key_matches(self.spec_rows()[ri as int]@[ki as int], key));
                            assert forall|a: int, b: int|
                                0 <= a < self.spec_rows().len() && 0 <= b
                                    < self.spec_rows()[a]@.len() && (a < ri as int || (a
                                    == ri as int && b < ki as int)) implies !key_matches(
                                #[trigger] self.spec_rows()[a]@[b],
                                key,
                            ) by {
                                if a < ri as int {
                                    assert(!key_matches(self.spec_rows()[a]@[b], key));
                                } else {
                                    assert(!key_matches(self.spec_rows()[ri as int]@[b], key));
                                }
                            }
                            assert(no_match_before(self.spec_rows(), key, ri as int, ki as int));
                        }
                        return Some(kd.finger);
                    }
                }
                proof {
                    assert(!key_matches(self.spec_rows()[ri as int]@[ki as int], key));
                }
                ki = ki + 1;
            }
            ri = ri + 1;
        }
        None
    }

    /// Whether `key` (without ASCII case) sits on the home row.
    pub fn is_home_row(&self, key: char) -> (r: bool)
        ensures
            r == self.spec_home_row().contains(to_lower(key)),
    {
        let key_lower = Self::lower_char(key);
        let mut i: usize = 0;
        let n = self.home_row.len();
        while i < n
            invariant
                n == self.home_row@.len(),
                i <= n,
                key_lower == to_lower(key),
                forall|m: int| 0 <= m < i ==> self.home_row@[m] != to_lower(key),
            decreases n - i,
        {
            if self.home_row[i] == key_lower {
                return true;
            }
            i = i + 1;
        }
        false
    }

    /// The rows of the grid, for the renderer.
    pub fn get_rows(&self) -> (r: &Vec<Vec<KeyDef>>)
        ensures
            r@ == self.spec_rows(),
    {
        &self.rows
    }
}

impl Default for KeyboardLayout {
    fn default() -> (r: Self)
        ensures
            r.spec_rows().len() == 5,
            r.spec_home_row() == seq!['a', 's', 'd', 'f', 'j', 'k', 'l', ';'],
    {
        Self::new()
    }
}

} // verus!
