//! Self-replacement: the command text of the detached helper that retries
//! moving the staged updater copy onto the real executable path.
use vstd::prelude::*;
use vstd::string::StrSliceExecFns;
use vstd::string::StringExecFns;
use crate::strutil::push_char;

verus! {

/// Every `"` doubled, so the text can stand inside a double-quoted
/// PowerShell string.
pub open spec fn escape_quotes_spec(s: Seq<char>) -> Seq<char>
    decreases s.len(),
{
    if s.len() == 0 {
        s
    } else {
        escape_quotes_spec(s.drop_last()) + (if s.last() == '"' {
            seq!['"', '"']
        } else {
            seq![s.last()]
        })
    }
}

/// Doubles every double quote in `s`.
pub fn escape_quotes(s: &str) -> (r: String)
    ensures
        r@ == escape_quotes_spec(s@),
{
    let len = s.unicode_len();
    let mut out = String::new();
    let mut i: usize = 0;
    while i < len
        invariant
            i <= len,
            len == s@.len(),
            out@ == escape_quotes_spec(s@.take(i as int)),
        decreases len - i,
    {
        let c = s.get_char(i);
        if c == '"' {
            push_char(&mut out, '"');
            push_char(&mut out, '"');
        } else {
            push_char(&mut out, c);
        }
        proof {
            assert(s@.take(i as int + 1).drop_last() =~= s@.take(i as int));
            assert(s@.take(i as int + 1).last() == s@[i as int]);
            assert(out@ =~= escape_quotes_spec(s@.take(i as int + 1)));
        }
        i += 1;
    }
    proof {
        assert(s@.take(len as int) =~= s@);
    }
    out
}

/// The helper command: bind the two quoted paths, then retry the move 40
/// times, half a second apart, exiting 0 on the first success and 1 when
/// the budget runs out.
pub open spec fn script_spec(src: Seq<char>, dst: Seq<char>) -> Seq<char> {
    "$src=\""@ + escape_quotes_spec(src) + "\"; $dst=\""@ + escape_quotes_spec(dst)
        + "\"; for($i=0; $i -lt 40; $i++) { try { Move-Item -LiteralPath $src -Destination $dst -Force -ErrorAction Stop; exit 0 } catch { Start-Sleep -Milliseconds 500 } }; exit 1"@
}

/// Builds the helper command that moves the staged file at `src` onto the
/// updater's executable path `dst`.
pub fn replacement_script(src: &str, dst: &str) -> (r: String)
    ensures
        r@ == script_spec(src@, dst@),
{
    let mut s = String::from_str("$src=\"");
    s.append(escape_quotes(src).as_str());
    s.append("\"; $dst=\"");
    s.append(escape_quotes(dst).as_str());
    s.append(
        "\"; for($i=0; $i -lt 40; $i++) { try { Move-Item -LiteralPath $src -Destination $dst -Force -ErrorAction Stop; exit 0 } catch { Start-Sleep -Milliseconds 500 } }; exit 1",
    );
    proof {
        assert(s@ =~= script_spec(src@, dst@));
    }
    s
}

} // verus!
