//! The per-line transformation: drop the measurement column, render the
//! timestamp column in the target timezone, pass a header row through on
//! the first line, filter by local time of day, and report malformed rows.

use vstd::prelude::*;
use vstd::string::StringExecFns;
use crate::clock::TimeOfDay;
use crate::fields::join_fields;
use crate::fields::join_from;
use crate::fields::join_with_head;
use crate::fields::split_fields;
use crate::fields::split_line;
use crate::numeric::int_literal_value;
use crate::numeric::is_i64_literal;
use crate::numeric::parse_i64;
use crate::tz::local_tod;
use crate::tz::rendered_at;
use crate::tz::ts_renderable;
use crate::tz::Timezone;

verus! {

/// The primary output for one line, if any: `None` both for a dropped row
/// and for a filtered one. Does not depend on the quiet flag.
pub open spec fn transform_output(
    line: Seq<char>,
    on_first_line: bool,
    tz_name: Seq<char>,
    time_point: Option<TimeOfDay>,
) -> Option<Seq<char>> {
    let fields = split_fields(line);
    if fields.len() < 2 {
        // No second field: nothing to reconstruct, the row is dropped.
        None
    } else if is_i64_literal(fields[1]) {
        let ts = int_literal_value(fields[1]);
        if !ts_renderable(tz_name, ts) {
            // The timestamp is beyond the range the calendar can represent.
            None
        } else if (time_point matches Some(t) && t.parts() != local_tod(tz_name, ts)) {
            None
        } else {
            Some(join_fields(seq![rendered_at(tz_name, ts)] + fields.skip(2)))
        }
    } else if on_first_line {
        // A non-numeric second field on the first line is the CSV header.
        Some(join_fields(fields.skip(1)))
    } else {
        None
    }
}

/// A data row whose timestamp field does not parse, past the first line.
pub open spec fn malformed_row(line: Seq<char>, on_first_line: bool) -> bool {
    let fields = split_fields(line);
    fields.len() >= 2 && !is_i64_literal(fields[1]) && !on_first_line
}

/// The diagnostic notice for a malformed row, quoting the offending line.
pub open spec fn diagnostic_for(line: Seq<char>) -> Seq<char> {
    "Line "@ + line + " doesn't start with timestamp"@
}

/// The diagnostic emitted for one line, if any: exactly one notice per
/// malformed row, and none at all under the quiet flag.
pub open spec fn transform_diagnostic(
    line: Seq<char>,
    on_first_line: bool,
    quiet: bool,
) -> Option<Seq<char>> {
    if malformed_row(line, on_first_line) && !quiet {
        Some(diagnostic_for(line))
    } else {
        None
    }
}

/// What one line produces: at most one output record for the primary sink
/// and at most one diagnostic for the side channel.
pub struct TransformResult {
    pub output: Option<String>,
    pub diagnostic: Option<String>,
}

fn diagnostic_line(line: &str) -> (r: String)
    ensures
        r@ == diagnostic_for(line@),
{
    let mut r = String::from_str("Line ");
    r.append(line);
    r.append(" doesn't start with timestamp");
    r
}

/// Transforms one input line.
///
/// The first field (the measurement name) is dropped. The second field
/// must hold the row's timestamp as epoch seconds; it is replaced by the
/// local datetime in `dest_timezone`. A first line whose second field is
/// not numeric is the CSV header and passes through unchanged (minus the
/// first field). A later line whose second field is not numeric yields no
/// output but a diagnostic, unless `quiet`. With `time_point` set, only
/// rows whose local time of day equals it exactly are emitted.
pub fn process_line(
    line: &str,
    on_first_line: bool,
    dest_timezone: &Timezone,
    time_point: Option<TimeOfDay>,
    quiet: bool,
) -> (r: TransformResult)
    ensures
        r.output.deep_view() == transform_output(
            line@,
            on_first_line,
            dest_timezone.name_view(),
            time_point,
        ),
        r.diagnostic.deep_view() == transform_diagnostic(line@, on_first_line, quiet),
{
    let fields = split_line(line);
    if fields.len() < 2 {
        return TransformResult { output: None, diagnostic: None };
    }
    match parse_i64(fields[1].as_str()) {
        Some(ts) => {
            match dest_timezone.render_local(ts) {
                None => TransformResult { output: None, diagnostic: None },
                Some(rendered) => {
                    if let Some(t) = time_point {
                        match dest_timezone.local_time_of_day(ts) {
                            Some(tod) => {
                                if tod != t {
                                    return TransformResult { output: None, diagnostic: None };
                                }
                            },
                            None => {
                                // Unreachable: rendering succeeded, so the
                                // timestamp is in range.
                                assert(false);
                                return TransformResult { output: None, diagnostic: None };
                            },
                        }
                    }
                    let out = join_with_head(rendered, &fields, 2);
                    TransformResult { output: Some(out), diagnostic: None }
                },
            }
        },
        None => {
            if on_first_line {
                let out = join_from(&fields, 1);
                TransformResult { output: Some(out), diagnostic: None }
            } else if quiet {
                TransformResult { output: None, diagnostic: None }
            } else {
                TransformResult { output: None, diagnostic: Some(diagnostic_line(line)) }
            }
        },
    }
}

/// The outputs of the first `k` lines, in input order.
pub open spec fn outputs_upto(
    lines: Seq<Seq<char>>,
    k: int,
    tz_name: Seq<char>,
    time_point: Option<TimeOfDay>,
) -> Seq<Seq<char>>
    decreases k,
{
    if k <= 0 {
        Seq::<Seq<char>>::empty()
    } else {
        let prev = outputs_upto(lines, k - 1, tz_name, time_point);
        match transform_output(lines[k - 1], k - 1 == 0, tz_name, time_point) {
            Some(o) => prev.push(o),
            None => prev,
        }
    }
}

/// The diagnostics of the first `k` lines, in input order.
pub open spec fn diagnostics_upto(lines: Seq<Seq<char>>, k: int, quiet: bool) -> Seq<Seq<char>>
    decreases k,
{
    if k <= 0 {
        Seq::<Seq<char>>::empty()
    } else {
        let prev = diagnostics_upto(lines, k - 1, quiet);
        match transform_diagnostic(lines[k - 1], k - 1 == 0, quiet) {
            Some(d) => prev.push(d),
            None => prev,
        }
    }
}

/// Transforms a whole input, line by line in order: the first result is
/// every emitted record and the second every diagnostic, each in input
/// order. Only the very first line is eligible for header pass-through.
pub fn process_lines(
    lines: &Vec<String>,
    dest_timezone: &Timezone,
    time_point: Option<TimeOfDay>,
    quiet: bool,
) -> (r: (Vec<String>, Vec<String>))
    ensures
        r.0.deep_view() == outputs_upto(
            lines.deep_view(),
            lines@.len() as int,
            dest_timezone.name_view(),
            time_point,
        ),
        r.1.deep_view() == diagnostics_upto(lines.deep_view(), lines@.len() as int, quiet),
{
    let mut outs: Vec<String> = Vec::new();
    let mut diags: Vec<String> = Vec::new();
    let mut i: usize = 0;
    while i < lines.len()
        invariant
            i <= lines@.len(),
            outs.deep_view() == outputs_upto(
                lines.deep_view(),
                i as int,
                dest_timezone.name_view(),
                time_point,
            ),
            diags.deep_view() == diagnostics_upto(lines.deep_view(), i as int, quiet),
        decreases lines@.len() - i,
    {
        let r = process_line(lines[i].as_str(), i == 0, dest_timezone, time_point, quiet);
        let ghost old_outs = outs.deep_view();
        let ghost old_diags = diags.deep_view();
        if let Some(o) = r.output {
            let ghost ov = o@;
            outs.push(o);
            proof {
                assert(outs.deep_view() =~= old_outs.push(ov));
            }
        }
        if let Some(d) = r.diagnostic {
            let ghost dv = d@;
            diags.push(d);
            proof {
                assert(diags.deep_view() =~= old_diags.push(dv));
            }
        }
        i += 1;
    }
    (outs, diags)
}

/// For every valid row whose timestamp parses and converts, with no active
/// filter, the output is owed: the rendered local datetime joined with the
/// remaining fields. The measurement column is dropped, so the field count
/// is the row's own field count minus one.
pub proof fn lemma_valid_row_output(line: Seq<char>, on_first_line: bool, tz_name: Seq<char>)
    requires
        split_fields(line).len() >= 2,
        is_i64_literal(split_fields(line)[1]),
        ts_renderable(tz_name, int_literal_value(split_fields(line)[1])),
    ensures
        transform_output(line, on_first_line, tz_name, None::<TimeOfDay>) == Some(
            join_fields(
                seq![rendered_at(tz_name, int_literal_value(split_fields(line)[1]))]
                    + split_fields(line).skip(2),
            ),
        ),
{
}

/// On the first line, a non-numeric second field is the header: it passes
/// through unchanged minus the measurement column, with no diagnostic,
/// whatever the filter and quiet settings.
pub proof fn lemma_header_pass_through(
    line: Seq<char>,
    tz_name: Seq<char>,
    time_point: Option<TimeOfDay>,
    quiet: bool,
)
    requires
        split_fields(line).len() >= 2,
        !is_i64_literal(split_fields(line)[1]),
    ensures
        transform_output(line, true, tz_name, time_point) == Some(
            join_fields(split_fields(line).skip(1)),
        ),
        transform_diagnostic(line, true, quiet) is None,
{
}

/// Past the first line, a non-numeric second field yields no output and
/// exactly one diagnostic quoting the offending line, unless quiet.
pub proof fn lemma_malformed_row(
    line: Seq<char>,
    tz_name: Seq<char>,
    time_point: Option<TimeOfDay>,
    quiet: bool,
)
    requires
        split_fields(line).len() >= 2,
        !is_i64_literal(split_fields(line)[1]),
    ensures
        transform_output(line, false, tz_name, time_point) is None,
        !quiet ==> transform_diagnostic(line, false, quiet) == Some(diagnostic_for(line)),
        quiet ==> transform_diagnostic(line, false, quiet) is None,
{
}

/// Setting the filter to the row's own destination time of day retains the
/// row, with the same output as no filter at all; setting it to any other
/// time of day drops the row.
pub proof fn lemma_time_filter(
    line: Seq<char>,
    on_first_line: bool,
    tz_name: Seq<char>,
    t: TimeOfDay,
)
    requires
        split_fields(line).len() >= 2,
        is_i64_literal(split_fields(line)[1]),
        ts_renderable(tz_name, int_literal_value(split_fields(line)[1])),
    ensures
        t.parts() == local_tod(tz_name, int_literal_value(split_fields(line)[1]))
            ==> transform_output(line, on_first_line, tz_name, Some(t)) == transform_output(
            line,
            on_first_line,
            tz_name,
            None::<TimeOfDay>,
        ),
        t.parts() != local_tod(tz_name, int_literal_value(split_fields(line)[1]))
            ==> transform_output(line, on_first_line, tz_name, Some(t)) is None,
{
}

/// The transform is a function of its arguments alone: two runs over the
/// same input agree, output for output.
pub proof fn lemma_transform_deterministic(
    out1: Option<Seq<char>>,
    out2: Option<Seq<char>>,
    line: Seq<char>,
    on_first_line: bool,
    tz_name: Seq<char>,
    time_point: Option<TimeOfDay>,
)
    requires
        out1 == transform_output(line, on_first_line, tz_name, time_point),
        out2 == transform_output(line, on_first_line, tz_name, time_point),
    ensures
        out1 == out2,
{
}

} // verus!
