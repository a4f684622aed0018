//! Bootstrap detection: the daemon is ready once a line of its output
//! contains the marker, and unusable once its output stream closes
//! without one.

use vstd::prelude::*;

verus! {

/// The substring of the daemon's output that announces a usable
/// control interface.
pub open spec fn bootstrap_marker() -> Seq<char> {
    "Opened Control listener"@
}

/// The marker occurs in `line` starting at position `i`.
pub open spec fn marker_at(line: Seq<char>, i: int) -> bool {
    &&& 0 <= i
    &&& i + bootstrap_marker().len() <= line.len()
    &&& line.subrange(i, i + bootstrap_marker().len() as int) == bootstrap_marker()
}

/// The marker occurs somewhere in `line`.
pub open spec fn contains_marker(line: Seq<char>) -> bool {
    exists|i: int| marker_at(line, i)
}

/// Whether one line of daemon output announces bootstrap completion.
pub fn line_marks_bootstrap(line: &str) -> (r: bool)
    ensures
        r == contains_marker(line@),
{
    let marker = "Opened Control listener";
    proof {
        reveal_strlit("Opened Control listener");
    }
    let mlen = marker.unicode_len();
    let n = line.unicode_len();
    if n < mlen {
        assert(forall|i: int| !marker_at(line@, i));
        return false;
    }
    let mut i: usize = 0;
    while i <= n - mlen
        invariant
            mlen == bootstrap_marker().len(),
            marker@ == bootstrap_marker(),
            n == line@.len(),
            1 <= mlen <= n,
            i <= n - mlen + 1,
            forall|k: int| 0 <= k < i ==> !marker_at(line@, k),
        decreases n - mlen - i + 1,
    {
        let mut j: usize = 0;
        let mut live = true;
        while live && j < mlen
            invariant
                mlen == bootstrap_marker().len(),
                marker@ == bootstrap_marker(),
                n == line@.len(),
                i + mlen <= n,
                j <= mlen,
                live ==> forall|t: int| 0 <= t < j ==> line@[i + t] == bootstrap_marker()[t],
                !live ==> !marker_at(line@, i as int),
            decreases mlen - j, (if live { 1int } else { 0int }),
        {
            if line.get_char(i + j) == marker.get_char(j) {
                j = j + 1;
            } else {
                proof {
                    if marker_at(line@, i as int) {
                        assert(line@.subrange(i as int, i + mlen)[j as int]
                            == bootstrap_marker()[j as int]);
                    }
                }
                live = false;
            }
        }
        if live {
            proof {
                assert(line@.subrange(i as int, i + mlen) =~= bootstrap_marker());
                assert(marker_at(line@, i as int));
            }
            return true;
        }
        i = i + 1;
    }
    proof {
        assert forall|k: int| !marker_at(line@, k) by {
            if 0 <= k < i {
            } else if k >= i {
                assert(k + bootstrap_marker().len() > n);
            }
        }
    }
    false
}

/// What the daemon launcher read next from the daemon's output:
/// a line, or the end of the stream.
pub enum OutputRead {
    Line(String),
    Closed,
}

/// What the launcher does with one read: hand the live daemon over,
/// keep scanning, or give the daemon up as unusable.
#[derive(Clone, Copy, Debug, PartialEq, Eq, Structural)]
pub enum ScanVerdict {
    /// The line carries the bootstrap marker: the daemon is ready.
    Ready,
    /// An ordinary line: keep reading.
    KeepWaiting,
    /// The stream closed before the marker appeared: terminate the
    /// daemon (best effort) and report a launch failure.
    GiveUp,
}

/// The verdict one read deserves.
pub open spec fn scan_spec(read: OutputRead) -> ScanVerdict {
    match read {
        OutputRead::Line(l) => if contains_marker(l@) {
            ScanVerdict::Ready
        } else {
            ScanVerdict::KeepWaiting
        },
        OutputRead::Closed => ScanVerdict::GiveUp,
    }
}

/// Decides, for one read from the daemon's output, whether bootstrap
/// is complete. A closed stream is never waited on: it is an
/// immediate failure, so a daemon that exits without ever printing
/// the marker cannot hang the launcher.
pub fn scan_output_line(read: &OutputRead) -> (v: ScanVerdict)
    ensures
        v == scan_spec(*read),
{
    match read {
        OutputRead::Line(l) => {
            if line_marks_bootstrap(l.as_str()) {
                ScanVerdict::Ready
            } else {
                ScanVerdict::KeepWaiting
            }
        },
        OutputRead::Closed => ScanVerdict::GiveUp,
    }
}

} // verus!
