//! A guard on position texts. The piece placement, the first field of a
//! position in Forsyth-Edwards notation, is read rank by rank; a text is
//! only handed on to the rules engine where no rank overflows, no more than
//! eight ranks are given and each side has exactly one king.

use vstd::prelude::*;

verus! {

/// How far a reading of the piece placement has come.
pub struct Scan {
    /// The rank separators passed.
    pub separators: int,
    /// The files filled on the current rank.
    pub files: int,
    /// The white kings placed.
    pub white_kings: int,
    /// The black kings placed.
    pub black_kings: int,
}

/// Whether a character names a piece.
pub open spec fn is_piece_letter(c: char) -> bool {
    c == 'r' || c == 'R' || c == 'n' || c == 'N' || c == 'b' || c == 'B' || c == 'p' || c == 'P'
        || c == 'q' || c == 'Q' || c == 'k' || c == 'K'
}

/// The reading before any character.
pub open spec fn scan_start() -> Scan {
    Scan { separators: 0, files: 0, white_kings: 0, black_kings: 0 }
}

/// The reading after one more character, or nothing where the character
/// cannot follow: a ninth rank, a file beyond the eighth, a second king of
/// one side, or a character that is no part of a placement.
pub open spec fn scan_step(st: Scan, c: char) -> Option<Scan> {
    if c == '/' {
        if st.separators < 7 {
            Some(Scan { separators: st.separators + 1, files: 0, ..st })
        } else {
            None
        }
    } else if 49 <= c as u32 <= 56 {
        if st.files + (c as u32 - 48) <= 8 {
            Some(Scan { files: st.files + (c as u32 - 48), ..st })
        } else {
            None
        }
    } else if is_piece_letter(c) && st.files < 8 {
        if c == 'K' {
            if st.white_kings == 0 {
                Some(Scan { files: st.files + 1, white_kings: 1, ..st })
            } else {
                None
            }
        } else if c == 'k' {
            if st.black_kings == 0 {
                Some(Scan { files: st.files + 1, black_kings: 1, ..st })
            } else {
                None
            }
        } else {
            Some(Scan { files: st.files + 1, ..st })
        }
    } else {
        None
    }
}

/// The reading after the first `n` characters of `s`.
pub open spec fn scan(s: Seq<char>, n: int) -> Option<Scan>
    decreases n,
{
    if n <= 0 {
        Some(scan_start())
    } else {
        match scan(s, n - 1) {
            Some(st) => scan_step(st, s[n - 1]),
            None => None,
        }
    }
}

/// The end of the field that begins at `from`: the first space at or after
/// it, or the end of `s`.
pub open spec fn field_end(s: Seq<char>, from: int) -> int
    decreases s.len() - from,
{
    if from < 0 || from >= s.len() {
        s.len() as int
    } else if s[from] == ' ' {
        from
    } else {
        field_end(s, from + 1)
    }
}

/// Whether the piece placement of a position text is sound: it can be read
/// to its end, and it places one king of each side.
pub open spec fn placement_is_sound(s: Seq<char>) -> bool {
    match scan(s, field_end(s, 0)) {
        Some(st) => st.white_kings == 1 && st.black_kings == 1,
        None => false,
    }
}

/// A field ends at or after the place where it begins.
pub proof fn lemma_field_end_bounds(s: Seq<char>, from: int)
    requires
        0 <= from <= s.len(),
    ensures
        from <= field_end(s, from) <= s.len(),
    decreases s.len() - from,
{
    if from < s.len() && s[from] != ' ' {
        lemma_field_end_bounds(s, from + 1);
    }
}

/// A reading that has failed stays failed.
pub proof fn lemma_scan_stays_failed(s: Seq<char>, k: int, n: int)
    requires
        0 <= k <= n,
        scan(s, k) is None,
    ensures
        scan(s, n) is None,
    decreases n - k,
{
    if k < n {
        lemma_scan_stays_failed(s, k, n - 1);
    }
}

/// Whether a character names a piece.
pub fn char_is_piece_letter(c: char) -> (r: bool)
    ensures
        r == is_piece_letter(c),
{
    c == 'r' || c == 'R' || c == 'n' || c == 'N' || c == 'b' || c == 'B' || c == 'p' || c == 'P'
        || c == 'q' || c == 'Q' || c == 'k' || c == 'K'
}

/// Checks the piece placement of a position text.
pub fn check_placement(text: &str) -> (sound: bool)
    ensures
        sound == placement_is_sound(text@),
{
    let n: usize = text.unicode_len();
    let mut separators: u8 = 0;
    let mut files: u8 = 0;
    let mut white_kings: u8 = 0;
    let mut black_kings: u8 = 0;
    let mut i: usize = 0;
    let mut at_end: bool = n == 0;
    while !at_end
        invariant
            i <= n,
            n == text@.len(),
            at_end ==> field_end(text@, 0) == i,
            !at_end ==> i < n,
            field_end(text@, i as int) == field_end(text@, 0),
            separators <= 7,
            files <= 8,
            white_kings <= 1,
            black_kings <= 1,
            scan(text@, i as int) == Some(
                Scan {
                    separators: separators as int,
                    files: files as int,
                    white_kings: white_kings as int,
                    black_kings: black_kings as int,
                },
            ),
        decreases n - i + (if at_end { 0int } else { 1int }),
    {
        let c: char = text.get_char(i);
        let u: u32 = c as u32;
        if c == ' ' {
            at_end = true;
        } else {
            proof {
                lemma_field_end_bounds(text@, i + 1);
            }
            let ghost end = field_end(text@, 0);
            if c == '/' {
                if separators >= 7 {
                    proof {
                        lemma_scan_stays_failed(text@, i + 1, end);
                    }
                    return false;
                }
                separators = separators + 1;
                files = 0;
            } else if 49 <= u && u <= 56 {
                let width: u8 = (u - 48) as u8;
                if files + width > 8 {
                    proof {
                        lemma_scan_stays_failed(text@, i + 1, end);
                    }
                    return false;
                }
                files = files + width;
            } else if char_is_piece_letter(c) && files < 8 {
                if c == 'K' {
                    if white_kings != 0 {
                        proof {
                            lemma_scan_stays_failed(text@, i + 1, end);
                        }
                        return false;
                    }
                    white_kings = 1;
                } else if c == 'k' {
                    if black_kings != 0 {
                        proof {
                            lemma_scan_stays_failed(text@, i + 1, end);
                        }
                        return false;
                    }
                    black_kings = 1;
                }
                files = files + 1;
            } else {
                proof {
                    lemma_scan_stays_failed(text@, i + 1, end);
                }
                return false;
            }
            i = i + 1;
            at_end = i == n;
        }
    }
    white_kings == 1 && black_kings == 1
}

} // verus!
