use vstd::prelude::*;

use crate::classify::Verdict;
use crate::scan::{
    candidates_view, lines_of, opt_view, parse_scan_output, reports_of, HostCandidate, InfoView,
};

verus! {

/// A host that the identification cascade accepted.
#[derive(Clone, Debug, PartialEq, Eq)]
pub struct ShellyDevice {
    pub ip: String,
    pub hostname: Option<String>,
}

impl ShellyDevice {
    pub open spec fn view(self) -> InfoView {
        (self.ip@, opt_view(self.hostname))
    }
}

pub open spec fn devices_view(ds: Seq<ShellyDevice>) -> Seq<InfoView> {
    ds.map_values(|d: ShellyDevice| d.view())
}

/// The discovery scan could not run or ended in failure.
#[derive(Clone, Debug, PartialEq, Eq)]
pub struct ScanError {
    pub message: String,
}

pub open spec fn scan_error_text(stderr: Seq<char>) -> Seq<char> {
    "nmap command failed: "@ + stderr
}

/// The candidates whose verdict is acceptance, in their original order.
pub open spec fn accepted(cands: Seq<InfoView>, verdicts: Seq<Verdict>) -> Seq<InfoView>
    decreases cands.len(),
{
    if cands.len() == 0 {
        seq![]
    } else {
        let prev = accepted(cands.drop_last(), verdicts.take(cands.len() - 1));
        if verdicts[cands.len() - 1] == Verdict::Accept {
            prev.push(cands.last())
        } else {
            prev
        }
    }
}

/// The hosts of a finished scan: an error carrying the scan's error text when it
/// exited in failure, else the hosts its output reports.
pub fn scan_candidates(exit_ok: bool, stdout: &str, stderr: &str) -> (r: Result<
    Vec<HostCandidate>,
    ScanError,
>)
    ensures
        r is Err <==> !exit_ok,
        r matches Err(e) ==> e.message@ == scan_error_text(stderr@),
        r matches Ok(hs) ==> candidates_view(hs@) == reports_of(lines_of(stdout@)),
{
    if !exit_ok {
        let mut message = String::from_str("nmap command failed: ");
        message.append(stderr);
        return Err(ScanError { message });
    }
    Ok(parse_scan_output(stdout))
}

fn copy_name(n: &Option<String>) -> (r: Option<String>)
    ensures
        opt_view(r) == opt_view(*n),
{
    match n {
        Some(s) => Some(s.clone()),
        None => None,
    }
}

/// The devices among `candidates` whose verdict, at the same position of
/// `verdicts`, is acceptance; in candidate order.
pub fn confirmed_devices(candidates: &Vec<HostCandidate>, verdicts: &Vec<Verdict>) -> (r: Vec<
    ShellyDevice,
>)
    requires
        verdicts@.len() == candidates@.len(),
    ensures
        devices_view(r@) == accepted(candidates_view(candidates@), verdicts@),
{
    let mut out: Vec<ShellyDevice> = Vec::new();
    let mut j: usize = 0;
    while j < candidates.len()
        invariant
            j <= candidates@.len(),
            verdicts@.len() == candidates@.len(),
            devices_view(out@) == accepted(
                candidates_view(candidates@).take(j as int),
                verdicts@.take(j as int),
            ),
        decreases candidates@.len() - j,
    {
        let ghost cv = candidates_view(candidates@);
        assert(cv.take(j + 1).drop_last() =~= cv.take(j as int));
        assert(verdicts@.take(j + 1).take(j as int) =~= verdicts@.take(j as int));
        if verdicts[j] == Verdict::Accept {
            let c = &candidates[j];
            let ghost before = out@;
            out.push(ShellyDevice { ip: c.address.clone(), hostname: copy_name(&c.display_name) });
            assert(devices_view(out@) =~= devices_view(before).push(cv[j as int]));
        }
        j = j + 1;
    }
    assert(candidates_view(candidates@).take(j as int) =~= candidates_view(candidates@));
    assert(verdicts@.take(j as int) =~= verdicts@);
    out
}

} // verus!
