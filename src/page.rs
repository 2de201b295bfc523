//! The HTML view of the latest payload.
use vstd::prelude::*;
use vstd::string::*;
use crate::cell::SharedData;

verus! {

/// Relies on `String::push`: the character is appended at the end.
pub assume_specification[ String::push ](s: &mut String, ch: char)
    ensures
        final(s)@ == old(s)@.push(ch),
;

/// What one character becomes in HTML text.
pub open spec fn escape_char(c: char) -> Seq<char> {
    if c == '&' {
        "&amp;"@
    } else if c == '<' {
        "&lt;"@
    } else if c == '>' {
        "&gt;"@
    } else if c == '"' {
        "&quot;"@
    } else if c == '\'' {
        "&#39;"@
    } else {
        seq![c]
    }
}

/// `s` with each of `& < > " '` replaced by its character reference.
pub open spec fn escaped(s: Seq<char>) -> Seq<char>
    decreases s.len(),
{
    if s.len() == 0 {
        Seq::empty()
    } else {
        escaped(s.drop_last()) + escape_char(s.last())
    }
}

/// Escapes `s` for use as HTML text.
pub fn escape_html(s: &str) -> (r: String)
    ensures
        r@ == escaped(s@),
{
    let mut out = String::new();
    for c in it: s.chars()
        invariant
            it.seq() == s@,
            out@ == escaped(s@.subrange(0, it.index() as int)),
    {
        proof {
            let i = it.index();
            let next = s@.subrange(0, i + 1);
            assert(next.drop_last() =~= s@.subrange(0, i as int));
            assert(next.last() == c);
        }
        if c == '&' {
            out.append("&amp;");
        } else if c == '<' {
            out.append("&lt;");
        } else if c == '>' {
            out.append("&gt;");
        } else if c == '"' {
            out.append("&quot;");
        } else if c == '\'' {
            out.append("&#39;");
        } else {
            out.push(c);
        }
    }
    proof {
        assert(s@.subrange(0, s@.len() as int) =~= s@);
    }
    out
}

/// The page up to the payload: styles, and a script that refreshes the
/// payload from `/status` every second.
pub const PAGE_HEAD: &'static str = r#"<!doctype html>
<html lang="en">
<head>
  <meta charset="utf-8">
  <meta name="viewport" content="width=device-width,initial-scale=1">
  <title>Sample HTTP Server</title>
  <style>
    body { font-family: system-ui, -apple-system, "Segoe UI", Roboto, "Helvetica Neue", Arial; padding: 24px; }
    pre { background:#f5f5f5; padding:12px; border-radius:6px; }
    .meta { color:#666; font-size:0.9rem; }
  </style>
  <script>
    // fetch the latest value every second and swap it in
    async function poll() {
      try {
        const res = await fetch('/status', { cache: 'no-store' } );
        if (!res.ok) return;
        document.getElementById('latest').textContent = await res.text();
      } catch (e) {
        console.error(e);
      }
    }
    setInterval(poll, 1000);
    window.addEventListener('load', poll);
  </script>
</head>
<body>
  <h1>Sample HTTP Server</h1>
  <h2>Payload</h2>
  <pre id="latest">"#;

/// The page after the payload.
pub const PAGE_TAIL: &'static str = r#"</pre>
</body>
</html>
"#;

/// The page that shows `payload`.
pub open spec fn page(payload: Seq<char>) -> Seq<char> {
    PAGE_HEAD@ + escaped(payload) + PAGE_TAIL@
}

/// Renders the page for the given snapshot, its payload escaped.
pub fn render_html(data: &SharedData) -> (r: String)
    ensures
        r@ == page(data.latest@),
{
    let mut out = String::from_str(PAGE_HEAD);
    let body = escape_html(data.latest.as_str());
    out.append(body.as_str());
    out.append(PAGE_TAIL);
    out
}

/// No escaped payload holds a character that could open or close a tag or
/// an attribute value: whatever the backend sends, it shows as text.
pub proof fn lemma_escaped_has_no_markup(s: Seq<char>)
    ensures
        forall|i: int|
            0 <= i < escaped(s).len() ==> {
                let c = #[trigger] escaped(s)[i];
                c != '<' && c != '>' && c != '"' && c != '\''
            },
    decreases s.len(),
{
    if s.len() > 0 {
        lemma_escaped_has_no_markup(s.drop_last());
        let a = escaped(s.drop_last());
        let b = escape_char(s.last());
        assert(escaped(s) == a + b);
        reveal_strlit("&amp;");
        reveal_strlit("&lt;");
        reveal_strlit("&gt;");
        reveal_strlit("&quot;");
        reveal_strlit("&#39;");
        assert forall|i: int| 0 <= i < b.len() implies {
            let c = #[trigger] b[i];
            c != '<' && c != '>' && c != '"' && c != '\''
        } by {}
        assert forall|i: int| 0 <= i < escaped(s).len() implies {
            let c = #[trigger] escaped(s)[i];
            c != '<' && c != '>' && c != '"' && c != '\''
        } by {
            if i >= a.len() {
                assert(escaped(s)[i] == b[i - a.len()]);
            } else {
                assert(escaped(s)[i] == a[i]);
            }
        }
    }
}

} // verus!
