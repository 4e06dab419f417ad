//! The report formatter: the text that presents the exceptions of a fetch.

use crate::models::{Exception, ExceptionView};
use crate::text::{decimal, push_decimal};
use vstd::prelude::*;

verus! {

/// The block that presents one record under its number: the timestamp, the
/// type, the operation and the message, each on a line of its own, and a
/// blank line.
pub open spec fn block_text(number: nat, record: ExceptionView) -> Seq<char> {
    decimal(number) + ". ["@ + record.timestamp + "]\n   Type: "@ + record.exception_type
        + "\n   Operation: "@ + record.operation_name + "\n   Message: "@ + record.message
        + "\n\n"@
}

/// The blocks of the records in their order, numbered from 1.
pub open spec fn blocks_text(records: Seq<ExceptionView>) -> Seq<char>
    decreases records.len(),
{
    if records.len() == 0 {
        Seq::empty()
    } else {
        blocks_text(records.drop_last()) + block_text(records.len(), records.last())
    }
}

/// The whole report. Without records it is one line that names the hours
/// looked back; otherwise a line with the number of records, a blank line and
/// the blocks.
pub open spec fn report_text(records: Seq<ExceptionView>, hours: nat) -> Seq<char> {
    if records.len() == 0 {
        "No exceptions found in the last "@ + decimal(hours) + " hours. \u{1F389}\n"@
    } else {
        "Found "@ + decimal(records.len()) + " exceptions:\n\n"@ + blocks_text(records)
    }
}

fn push_block(out: &mut String, number: usize, exception: &Exception)
    ensures
        final(out)@ == old(out)@ + block_text(number as nat, exception@),
{
    push_decimal(out, number as u64);
    out.append(". [");
    out.append(exception.timestamp.as_str());
    out.append("]\n   Type: ");
    out.append(exception.exception_type.as_str());
    out.append("\n   Operation: ");
    out.append(exception.operation_name.as_str());
    out.append("\n   Message: ");
    out.append(exception.message.as_str());
    out.append("\n\n");
    assert(out@ =~= old(out)@ + block_text(number as nat, exception@));
}

/// Renders the report on the exceptions found in the last `hours` hours.
/// Nothing is cut, wrapped or translated.
pub fn format_report(exceptions: &Vec<Exception>, hours: u32) -> (report: String)
    ensures
        report@ == report_text(exceptions.deep_view(), hours as nat),
{
    let ghost records = exceptions.deep_view();
    let mut report = String::new();
    if exceptions.len() == 0 {
        report.append("No exceptions found in the last ");
        push_decimal(&mut report, hours as u64);
        report.append(" hours. \u{1F389}\n");
        assert(report@ =~= report_text(records, hours as nat));
        return report;
    }
    report.append("Found ");
    push_decimal(&mut report, exceptions.len() as u64);
    report.append(" exceptions:\n\n");
    let ghost head = report@;
    let mut i: usize = 0;
    assert(records.take(0) =~= Seq::<ExceptionView>::empty());
    assert(report@ =~= head + blocks_text(records.take(0)));
    while i < exceptions.len()
        invariant
            i <= exceptions.len(),
            records == exceptions.deep_view(),
            report@ == head + blocks_text(records.take(i as int)),
        decreases exceptions.len() - i,
    {
        proof {
            let done = records.take(i as int + 1);
            assert(done.drop_last() =~= records.take(i as int));
            assert(done.last() == exceptions[i as int]@);
        }
        push_block(&mut report, i + 1, &exceptions[i]);
        i = i + 1;
        assert(report@ =~= head + blocks_text(records.take(i as int)));
    }
    assert(records.take(i as int) =~= records);
    report
}

} // verus!
