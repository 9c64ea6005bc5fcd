//! The comparison/update engine: loads nothing itself, but decides — from an
//! already loaded golden record, the actual bytes and the update switch —
//! whether the assertion is equal, performs an update, or renders a failure
//! report to the output sink.

use vstd::prelude::*;
use vstd::string::StringExecFns;

use crate::diff::{diff_index, first_diff_index, lemma_diff_index_bounds};
use crate::render::{
    byte_window, hex_number, push_byte_window, push_hex_number, push_spacer, spacer,
};
use crate::store::Golden;

verus! {

/// End state of one assertion: the golden record equalled the actual bytes,
/// the golden record was rewritten from the actual bytes, or a failure
/// report was emitted.
#[derive(Clone, Copy, Debug, PartialEq, Eq, Structural)]
pub enum Outcome {
    Equal,
    UpdatePerformed,
    FailureReported,
}

/// What the engine's end state is, given the loaded golden record, the
/// actual bytes and the update switch.
pub open spec fn outcome_of(golden: Option<Seq<u8>>, actual: Seq<u8>, update_switch: bool) -> Outcome {
    if golden == Some(actual) {
        Outcome::Equal
    } else if update_switch {
        Outcome::UpdatePerformed
    } else {
        Outcome::FailureReported
    }
}

/// The golden record's content after the assertion: unchanged, unless an
/// update rewrote it with the actual bytes.
pub open spec fn golden_after(golden: Option<Seq<u8>>, actual: Seq<u8>, update_switch: bool) -> Option<
    Seq<u8>,
> {
    if outcome_of(golden, actual, update_switch) == Outcome::UpdatePerformed {
        Some(actual)
    } else {
        golden
    }
}

/// Whether help is shown on a failure report: always when every test shares
/// one process, otherwise only while the one-shot flag is still unset.
pub open spec fn help_decision(printed: bool, shared_process: bool) -> bool {
    shared_process || !printed
}

/// The one-shot flag's value after a failure report: it is set the first
/// time help is decided outside the shared-process mode, and never reset.
pub open spec fn help_printed_after(printed: bool, shared_process: bool) -> bool {
    printed || !shared_process
}

/// One-shot state deciding whether the usage hint is printed with a failure
/// report. A process holds a single flag shared by all assertions.
#[derive(Debug)]
pub struct HelpFlag {
    pub printed: bool,
}

impl HelpFlag {
    /// A fresh flag: help has not been printed yet.
    pub fn new() -> (r: HelpFlag)
        ensures
            !r.printed,
    {
        HelpFlag { printed: false }
    }

    /// Decides whether this failure report shows the usage hint, setting the
    /// flag so that at most one report per process does — unless tests share
    /// one process, in which case every report shows it and the flag is left
    /// alone.
    pub fn should_print_help(&mut self, shared_process: bool) -> (r: bool)
        ensures
            r == help_decision(old(self).printed, shared_process),
            final(self).printed == help_printed_after(old(self).printed, shared_process),
    {
        if shared_process {
            true
        } else {
            let was: bool = self.printed;
            self.printed = true;
            !was
        }
    }
}

/// The usage hint printed with at most one failure report per process.
pub open spec fn help_text() -> Seq<char> {
    "\nYou can update all `expect!` tests by running:\n\n    env UPDATE_EXPECT=1 cargo test\n\nTo update a single test, place the cursor on `expect` token and use `run` feature of rust-analyzer.\n"@
}

/// The one-line confirmation written when an update rewrites the golden
/// record.
pub open spec fn update_line(path: Seq<char>) -> Seq<char> {
    "\x1b[1m\x1b[92mupdating\x1b[0m: "@ + path + "\n"@
}

/// The head of a failure report: the error line with the path, the usage
/// hint when permitted, and the Expect and Actual sections. Recorded bytes
/// are never dumped raw; the Expect section shows a placeholder, or "Not
/// found" when the golden record is absent.
pub open spec fn report_header(path: Seq<char>, present: bool, help: bool) -> Seq<char> {
    "\n\x1b[1m\x1b[91merror\x1b[97m: expect test failed\x1b[0m\n   \x1b[1m\x1b[34m-->\x1b[0m "@ + path
        + "\n"@ + (if help {
        help_text()
    } else {
        Seq::<char>::empty()
    }) + "\n\x1b[1mExpect\x1b[0m:\n"@ + (if present {
        "<binary>"@
    } else {
        "\x1b[1mNot found\x1b[0m"@
    }) + "\n\n\x1b[1mActual\x1b[0m:\n<binary>\n\n"@
}

/// The divergence index used by the report: the first index where the
/// sequences diverge, or zero if none is found (which cannot occur when the
/// sequences differ).
pub open spec fn diff_index_or_zero(expected: Seq<u8>, actual: Seq<u8>) -> int {
    match diff_index(expected, actual) {
        Some(i) => i,
        None => 0,
    }
}

/// The Diff section of a failure report: the divergence offset in
/// hexadecimal, both sides rendered as windows around it, and a caret marker
/// under the divergence column.
pub open spec fn diff_section(expected: Seq<u8>, actual: Seq<u8>) -> Seq<char> {
    let i = diff_index_or_zero(expected, actual);
    "\x1b[1mDiff\x1b[0m:\nBinary files differ at byte 0x"@ + hex_number(i) + "\n\nExpect: "@
        + byte_window(expected, i, true) + "\nActual: "@ + byte_window(actual, i, false)
        + "\n        "@ + spacer(
        if i < 4 {
            i
        } else {
            4
        },
    ) + "\x1b[1m^^\x1b[0m\n"@
}

/// The whole failure report: the header, then — only when the golden record
/// is present — the Diff section.
pub open spec fn failure_report(
    path: Seq<char>,
    golden: Option<Seq<u8>>,
    actual: Seq<u8>,
    help: bool,
) -> Seq<char> {
    report_header(path, golden is Some, help) + (match golden {
        Some(expected) => diff_section(expected, actual),
        None => Seq::<char>::empty(),
    })
}

/// Whether two byte slices hold the same bytes.
pub fn bytes_equal(a: &[u8], b: &[u8]) -> (r: bool)
    ensures
        r == (a@ == b@),
{
    if a.len() != b.len() {
        return false;
    }
    let mut i: usize = 0;
    while i < a.len()
        invariant
            0 <= i <= a@.len(),
            a@.len() == b@.len(),
            forall|j: int| 0 <= j < i ==> a@[j] == b@[j],
        decreases a@.len() - i,
    {
        if a[i] != b[i] {
            assert(a@[i as int] != b@[i as int]);
            return false;
        }
        i += 1;
    }
    assert(a@ =~= b@);
    true
}

/// Self-updating file.
///
/// An assertion against it updates the file when the update switch is set.
/// The engine itself only consumes an already resolved path and an already
/// loaded golden record; reading and writing the file is its caller's part.
#[derive(Debug)]
pub struct ExpectFile {
    pub path: String,
}

impl ExpectFile {
    /// Runs the whole comparison/update machine on an already loaded golden
    /// record, writing all textual output to `out`.
    ///
    /// Equal content returns with no output and no state change. Differing
    /// (or absent) content with the update switch set emits the one-line
    /// confirmation and asks the caller to rewrite the golden record with
    /// `actual`. Otherwise a failure report is appended, and the one-shot
    /// help flag decides whether it carries the usage hint.
    #[verifier::rlimit(60)]
    pub fn assert_eq_nopanic_imp(
        &self,
        actual: &[u8],
        golden: &Golden,
        update_switch: bool,
        shared_process: bool,
        help: &mut HelpFlag,
        out: &mut String,
    ) -> (r: Outcome)
        ensures
            r == outcome_of(golden@, actual@, update_switch),
            r == Outcome::Equal ==> final(out)@ == old(out)@ && *final(help) == *old(help),
            r == Outcome::UpdatePerformed ==> final(out)@ == old(out)@ + update_line(self.path@)
                && *final(help) == *old(help),
            r == Outcome::FailureReported ==> final(out)@ == old(out)@ + failure_report(
                self.path@,
                golden@,
                actual@,
                help_decision(old(help).printed, shared_process),
            ) && final(help).printed == help_printed_after(old(help).printed, shared_process),
    {
        let equal: bool = match golden {
            Golden::Present(expected) => bytes_equal(expected.as_slice(), actual),
            Golden::Absent => false,
        };
        if equal {
            return Outcome::Equal;
        }
        if update_switch {
            out.append("\x1b[1m\x1b[92mupdating\x1b[0m: ");
            out.append(self.path.as_str());
            out.append("\n");
            proof {
                assert(out@ =~= old(out)@ + update_line(self.path@));
            }
            return Outcome::UpdatePerformed;
        }
        let print_help: bool = help.should_print_help(shared_process);
        out.append(
            "\n\x1b[1m\x1b[91merror\x1b[97m: expect test failed\x1b[0m\n   \x1b[1m\x1b[34m-->\x1b[0m ",
        );
        out.append(self.path.as_str());
        out.append("\n");
        if print_help {
            out.append(
                "\nYou can update all `expect!` tests by running:\n\n    env UPDATE_EXPECT=1 cargo test\n\nTo update a single test, place the cursor on `expect` token and use `run` feature of rust-analyzer.\n",
            );
        }
        out.append("\n\x1b[1mExpect\x1b[0m:\n");
        match golden {
            Golden::Present(_) => out.append("<binary>"),
            Golden::Absent => out.append("\x1b[1mNot found\x1b[0m"),
        }
        out.append("\n\n\x1b[1mActual\x1b[0m:\n<binary>\n\n");
        proof {
            assert(out@ =~= old(out)@ + report_header(self.path@, golden@ is Some, print_help));
        }
        let ghost after_header = out@;
        if let Golden::Present(expected) = golden {
            let diff_idx: usize = match first_diff_index(expected.as_slice(), actual) {
                Some(i) => i,
                None => 0,
            };
            proof {
                lemma_diff_index_bounds(expected@, actual@);
                assert(diff_idx as int == diff_index_or_zero(expected@, actual@));
            }
            out.append("\x1b[1mDiff\x1b[0m:\nBinary files differ at byte 0x");
            push_hex_number(out, diff_idx);
            out.append("\n\nExpect: ");
            push_byte_window(out, expected.as_slice(), diff_idx, true);
            out.append("\nActual: ");
            push_byte_window(out, actual, diff_idx, false);
            out.append("\n        ");
            push_spacer(
                out,
                if diff_idx < 4 {
                    diff_idx
                } else {
                    4
                },
            );
            out.append("\x1b[1m^^\x1b[0m\n");
            proof {
                assert(out@ =~= after_header + diff_section(expected@, actual@));
            }
        }
        proof {
            assert(out@ =~= old(out)@ + failure_report(
                self.path@,
                golden@,
                actual@,
                help_decision(old(help).printed, shared_process),
            ));
        }
        Outcome::FailureReported
    }
}

/// Once an assertion has succeeded — by finding equal content or by
/// performing an update — running it again with the same actual bytes and
/// the update switch unset finds equal content.
pub proof fn lemma_engine_idempotent(golden: Option<Seq<u8>>, actual: Seq<u8>, update_switch: bool)
    requires
        outcome_of(golden, actual, update_switch) != Outcome::FailureReported,
    ensures
        outcome_of(golden_after(golden, actual, update_switch), actual, false) == Outcome::Equal,
{
}

/// Round trip: after an update with some bytes, asserting the same bytes
/// with the update switch unset finds equal content.
pub proof fn lemma_update_round_trip(golden: Option<Seq<u8>>, actual: Seq<u8>)
    ensures
        outcome_of(golden_after(golden, actual, true), actual, false) == Outcome::Equal,
{
}

/// The flag state seen by the `n`-th failure report (0-based) in a process
/// whose reports all run outside the shared-process mode, starting from a
/// fresh flag.
pub open spec fn printed_before_report(n: nat) -> bool
    decreases n,
{
    if n == 0 {
        false
    } else {
        help_printed_after(printed_before_report((n - 1) as nat), false)
    }
}

/// Of any sequence of failure reports in one process (outside the
/// shared-process mode), exactly the first shows the usage hint.
pub proof fn lemma_help_prints_exactly_once(n: nat)
    ensures
        help_decision(printed_before_report(n), false) <==> n == 0,
{
}

} // verus!
