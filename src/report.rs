use vstd::prelude::*;
use crate::device::{Device, Service};

verus! {

pub open spec fn found_line(name: Seq<char>) -> Seq<char> {
    "Found '"@ + name + "'"@
}

pub open spec fn service_line(id: Seq<char>) -> Seq<char> {
    " - '"@ + id + "'"@
}

/// The lines printed for a resolved device: its friendly name, a heading,
/// then one line per service id, in order.
pub open spec fn report_spec(d: Device) -> Seq<Seq<char>> {
    seq![found_line(d.friendly_name@), "Services: "@] + d.services@.map_values(
        |s: Service| service_line(s.service_id@),
    )
}

fn quoted(prefix: &str, text: &str) -> (r: String)
    ensures
        r@ == prefix@ + text@ + "'"@,
{
    let mut s = String::from_str(prefix);
    s.append(text);
    s.append("'");
    s
}

/// The lines that report a resolved device.
pub fn report_lines(d: &Device) -> (r: Vec<String>)
    ensures
        r@.len() == d.services@.len() + 2,
        forall|i: int| 0 <= i < r@.len() ==> #[trigger] r@[i]@ == report_spec(*d)[i],
{
    let mut out: Vec<String> = Vec::new();
    out.push(quoted("Found '", d.friendly_name.as_str()));
    out.push(String::from_str("Services: "));
    let n = d.services.len();
    let mut i: usize = 0;
    while i < n
        invariant
            n == d.services@.len(),
            i <= n,
            out@.len() == i + 2,
            forall|j: int| 0 <= j < out@.len() ==> #[trigger] out@[j]@ == report_spec(*d)[j],
        decreases n - i,
    {
        out.push(quoted(" - '", d.services[i].service_id.as_str()));
        i = i + 1;
    }
    out
}

} // verus!
