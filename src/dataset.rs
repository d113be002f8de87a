use vstd::prelude::*;

verus! {

/// Why a dataset of tick values could not be read.
#[derive(Clone, Copy, Debug, PartialEq, Eq, Structural)]
pub enum DatasetError {
    /// The byte at this position is neither a digit nor whitespace.
    InvalidByte { pos: usize },
    /// The number that the digit at this position extends does not fit in a
    /// `u64`.
    TooLarge { pos: usize },
}

pub open spec fn is_space(b: u8) -> bool {
    b == 32 || b == 9 || b == 10 || b == 13
}

pub open spec fn is_digit(b: u8) -> bool {
    48 <= b <= 57
}

/// The values read so far and the number being read, if any, after the
/// bytes `s`.
pub open spec fn scan(s: Seq<u8>) -> Result<(Seq<u64>, Option<nat>), DatasetError>
    decreases s.len(),
{
    if s.len() == 0 {
        Ok((Seq::empty(), None))
    } else {
        match scan(s.drop_last()) {
            Err(e) => Err(e),
            Ok((vals, cur)) => {
                let b = s.last();
                let pos = (s.len() - 1) as usize;
                if is_digit(b) {
                    let v: int = match cur {
                        Some(c) => c * 10 + (b - 48),
                        None => b - 48,
                    };
                    if v > u64::MAX {
                        Err(DatasetError::TooLarge { pos })
                    } else {
                        Ok((vals, Some(v as nat)))
                    }
                } else if is_space(b) {
                    match cur {
                        Some(c) => Ok((vals.push(c as u64), None)),
                        None => Ok((vals, None)),
                    }
                } else {
                    Err(DatasetError::InvalidByte { pos })
                }
            },
        }
    }
}

/// The unsigned decimal numbers of `s`, separated by ASCII whitespace, or
/// the first byte that makes `s` malformed.
pub open spec fn parse_ticks_spec(s: Seq<u8>) -> Result<Seq<u64>, DatasetError> {
    match scan(s) {
        Err(e) => Err(e),
        Ok((vals, cur)) => Ok(
            match cur {
                Some(c) => vals.push(c as u64),
                None => vals,
            },
        ),
    }
}

proof fn lemma_scan_err_extends(s: Seq<u8>, k: int, e: DatasetError)
    requires
        0 <= k <= s.len(),
        scan(s.subrange(0, k)) == Err::<(Seq<u64>, Option<nat>), DatasetError>(e),
    ensures
        scan(s) == Err::<(Seq<u64>, Option<nat>), DatasetError>(e),
    decreases s.len() - k,
{
    if k < s.len() {
        assert(s.subrange(0, k + 1).drop_last() =~= s.subrange(0, k));
        lemma_scan_err_extends(s, k + 1, e);
    } else {
        assert(s.subrange(0, k) =~= s);
    }
}

pub open spec fn nat_of(cur: Option<u64>) -> Option<nat> {
    match cur {
        Some(c) => Some(c as nat),
        None => None,
    }
}

/// Reads a dataset of tick values: unsigned decimal numbers separated by
/// ASCII whitespace.
pub fn parse_ticks(bytes: &[u8]) -> (r: Result<Vec<u64>, DatasetError>)
    ensures
        match r {
            Ok(v) => parse_ticks_spec(bytes@) == Ok::<Seq<u64>, DatasetError>(v@),
            Err(e) => parse_ticks_spec(bytes@) == Err::<Seq<u64>, DatasetError>(e),
        },
{
    let mut vals: Vec<u64> = Vec::new();
    let mut cur: Option<u64> = None;
    let n = bytes.len();
    for i in 0..n
        invariant
            n == bytes@.len(),
            scan(bytes@.subrange(0, i as int)) == Ok::<(Seq<u64>, Option<nat>), DatasetError>(
                (vals@, nat_of(cur)),
            ),
    {
        let b = bytes[i];
        proof {
            assert(bytes@.subrange(0, i + 1).drop_last() =~= bytes@.subrange(0, i as int));
            assert(bytes@.subrange(0, i + 1).last() == b);
        }
        if 48 <= b && b <= 57 {
            let d = (b - 48) as u64;
            let v = match cur {
                Some(c) => {
                    if c > (u64::MAX - d) / 10 {
                        proof {
                            lemma_scan_err_extends(
                                bytes@,
                                i + 1,
                                DatasetError::TooLarge { pos: i },
                            );
                        }
                        return Err(DatasetError::TooLarge { pos: i });
                    }
                    c * 10 + d
                },
                None => d,
            };
            cur = Some(v);
        } else if b == 32 || b == 9 || b == 10 || b == 13 {
            if let Some(c) = cur {
                vals.push(c);
            }
            cur = None;
        } else {
            proof {
                lemma_scan_err_extends(bytes@, i + 1, DatasetError::InvalidByte { pos: i });
            }
            return Err(DatasetError::InvalidByte { pos: i });
        }
    }
    proof {
        assert(bytes@.subrange(0, n as int) =~= bytes@);
    }
    if let Some(c) = cur {
        vals.push(c);
    }
    Ok(vals)
}

} // verus!
