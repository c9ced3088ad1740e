//! The HTML report of a batch run.

use vstd::prelude::*;

use crate::history::now_rfc3339;
use crate::text::{chars_of, owned, push_char};
use crate::types::BatchItemResult;

verus! {

/// The HTML form of one character: `&`, `<`, `>` and `"` become entities.
pub open spec fn escape_char(c: char) -> Seq<char> {
    if c == '&' {
        "&amp;"@
    } else if c == '<' {
        "&lt;"@
    } else if c == '>' {
        "&gt;"@
    } else if c == '"' {
        "&quot;"@
    } else {
        seq![c]
    }
}

/// Text made safe for HTML, character by character.
pub open spec fn escaped(s: Seq<char>) -> Seq<char>
    decreases s.len(),
{
    if s.len() == 0 {
        Seq::empty()
    } else {
        escaped(s.drop_last()) + escape_char(s.last())
    }
}

/// Text made safe to place inside HTML.
pub fn html_escape(value: &str) -> (r: String)
    ensures
        r@ == escaped(value@),
{
    let v = chars_of(value);
    let mut out = String::new();
    let mut i: usize = 0;
    while i < v.len()
        invariant
            v@ == value@,
            i <= v@.len(),
            out@ == escaped(value@.subrange(0, i as int)),
        decreases v@.len() - i,
    {
        let c = v[i];
        if c == '&' {
            out.append("&amp;");
        } else if c == '<' {
            out.append("&lt;");
        } else if c == '>' {
            out.append("&gt;");
        } else if c == '"' {
            out.append("&quot;");
        } else {
            push_char(&mut out, c);
        }
        proof {
            assert(value@.subrange(0, i + 1).drop_last() =~= value@.subrange(0, i as int));
        }
        i = i + 1;
    }
    proof {
        assert(value@.subrange(0, v@.len() as int) =~= value@);
    }
    out
}

/// One table row of the report.
pub open spec fn report_row(item: BatchItemResult) -> Seq<char> {
    "<tr><td>"@ + escaped(item.path@) + "</td><td>"@ + (if item.success {
        "OK"@
    } else {
        "Failed"@
    }) + "</td><td>"@ + escaped(item.message@) + "</td></tr>"@
}

/// The rows of the report, one line each.
pub open spec fn report_rows(items: Seq<BatchItemResult>) -> Seq<char>
    decreases items.len(),
{
    if items.len() == 0 {
        Seq::empty()
    } else if items.len() == 1 {
        report_row(items[0])
    } else {
        report_rows(items.drop_last()) + "\n"@ + report_row(items.last())
    }
}

/// The part of the page before the generation time.
pub open spec fn page_head() -> Seq<char> {
    "<!DOCTYPE html>\n<html lang=\"en\">\n<head>\n  <meta charset=\"UTF-8\" />\n  <title>PrivyFile Report</title>\n  <style>\n    body { font-family: Segoe UI, sans-serif; background: #0a0f1a; color: #e2e8f0; padding: 2rem; }\n    table { width: 100%; border-collapse: collapse; }\n    th, td { border: 1px solid #1e293b; padding: 0.75rem; text-align: left; }\n    th { background: #111827; color: #10b981; }\n  </style>\n</head>\n<body>\n  <h1>PrivyFile Processing Report</h1>\n  <p>Generated at "@
}

/// The part of the page between the generation time and the rows.
pub open spec fn page_middle() -> Seq<char> {
    "</p>\n  <table>\n    <thead><tr><th>File</th><th>Status</th><th>Message</th></tr></thead>\n    <tbody>"@
}

/// The part of the page after the rows.
pub open spec fn page_tail() -> Seq<char> {
    "</tbody>\n  </table>\n</body>\n</html>"@
}

/// The whole report page.
pub open spec fn report_page(generated_at: Seq<char>, items: Seq<BatchItemResult>) -> Seq<char> {
    page_head() + generated_at + page_middle() + report_rows(items) + page_tail()
}

fn render_row(item: &BatchItemResult) -> (r: String)
    ensures
        r@ == report_row(*item),
{
    let mut s = owned("<tr><td>");
    let p = html_escape(item.path.as_str());
    s.append(p.as_str());
    s.append("</td><td>");
    if item.success {
        s.append("OK");
    } else {
        s.append("Failed");
    }
    s.append("</td><td>");
    let m = html_escape(item.message.as_str());
    s.append(m.as_str());
    s.append("</td></tr>");
    s
}

/// The report page for the results, with the given generation time.
pub fn render_html_report_at(results: &[BatchItemResult], generated_at: &str) -> (r: String)
    ensures
        r@ == report_page(generated_at@, results@),
{
    let mut rows = String::new();
    let mut i: usize = 0;
    while i < results.len()
        invariant
            i <= results@.len(),
            rows@ == report_rows(results@.subrange(0, i as int)),
        decreases results@.len() - i,
    {
        let row = render_row(&results[i]);
        if i > 0 {
            rows.append("\n");
        }
        rows.append(row.as_str());
        proof {
            let s = results@.subrange(0, i + 1);
            assert(s.drop_last() =~= results@.subrange(0, i as int));
            if i == 0 {
                assert(rows@ =~= report_row(s[0]));
            }
        }
        i = i + 1;
    }
    proof {
        assert(results@.subrange(0, results@.len() as int) =~= results@);
    }
    let mut page = owned(
        "<!DOCTYPE html>\n<html lang=\"en\">\n<head>\n  <meta charset=\"UTF-8\" />\n  <title>PrivyFile Report</title>\n  <style>\n    body { font-family: Segoe UI, sans-serif; background: #0a0f1a; color: #e2e8f0; padding: 2rem; }\n    table { width: 100%; border-collapse: collapse; }\n    th, td { border: 1px solid #1e293b; padding: 0.75rem; text-align: left; }\n    th { background: #111827; color: #10b981; }\n  </style>\n</head>\n<body>\n  <h1>PrivyFile Processing Report</h1>\n  <p>Generated at ",
    );
    page.append(generated_at);
    page.append(
        "</p>\n  <table>\n    <thead><tr><th>File</th><th>Status</th><th>Message</th></tr></thead>\n    <tbody>",
    );
    page.append(rows.as_str());
    page.append("</tbody>\n  </table>\n</body>\n</html>");
    page
}

/// The report page for the results, stamped with the current time.
pub fn render_html_report(results: &[BatchItemResult]) -> (r: String)
    ensures
        exists|t: Seq<char>| r@ == #[trigger] report_page(t, results@),
{
    let now = now_rfc3339();
    render_html_report_at(results, now.as_str())
}

/// Escaped text never holds `<`, `>` or `"`, so it cannot open or close a
/// tag or an attribute.
pub proof fn law_escaped_has_no_markup(s: Seq<char>)
    ensures
        forall|i: int|
            0 <= i < escaped(s).len() ==> #[trigger] escaped(s)[i] != '<' && escaped(s)[i] != '>'
                && escaped(s)[i] != '"',
    decreases s.len(),
{
    reveal_strlit("&amp;");
    reveal_strlit("&lt;");
    reveal_strlit("&gt;");
    reveal_strlit("&quot;");
    if s.len() > 0 {
        law_escaped_has_no_markup(s.drop_last());
        let a = escaped(s.drop_last());
        let b = escape_char(s.last());
        assert forall|i: int| 0 <= i < (a + b).len() implies #[trigger] (a + b)[i] != '<' && (a
            + b)[i] != '>' && (a + b)[i] != '"' by {
            if i >= a.len() {
                assert((a + b)[i] == b[i - a.len()]);
            } else {
                assert((a + b)[i] == a[i]);
            }
        }
    }
}

} // verus!
