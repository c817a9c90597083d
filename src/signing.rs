use vstd::prelude::*;

verus! {

/// One line of a signing string: `name: value`.
pub open spec fn line(h: (String, String)) -> Seq<char> {
    h.0@ + ": "@ + h.1@
}

/// The signing string of an HTTP signature: one line per covered header, in
/// the order the `headers` parameter lists them, joined by newlines.
pub open spec fn signing_text(hs: Seq<(String, String)>) -> Seq<char>
    decreases hs.len(),
{
    if hs.len() == 0 {
        Seq::empty()
    } else if hs.len() == 1 {
        line(hs[0])
    } else {
        signing_text(hs.drop_last()) + "\n"@ + line(hs.last())
    }
}

/// Builds the signing string from the covered headers, names already in
/// lower case, `(request-target)` among them where it is covered.
pub fn signing_string(headers: &Vec<(String, String)>) -> (r: String)
    ensures
        r@ == signing_text(headers@),
{
    let mut s = String::new();
    let mut i: usize = 0;
    while i < headers.len()
        invariant
            i <= headers@.len(),
            s@ == signing_text(headers@.take(i as int)),
        decreases headers.len() - i,
    {
        proof {
            assert(headers@.take(i as int + 1).drop_last() =~= headers@.take(i as int));
            assert(headers@.take(i as int + 1).last() == headers@[i as int]);
        }
        if i > 0 {
            s.append("\n");
        }
        let (name, value) = &headers[i];
        s.append(name.as_str());
        s.append(": ");
        s.append(value.as_str());
        proof {
            if i == 0 {
                assert(headers@.take(1)[0] == headers@[0]);
                assert(s@ =~= line(headers@[0]));
            } else {
                assert(s@ =~= signing_text(headers@.take(i as int)) + "\n"@ + line(headers@[i as int]));
            }
        }
        i = i + 1;
    }
    assert(headers@.take(i as int) =~= headers@);
    s
}

/// The headers that an outgoing request signs: `(request-target) host date`,
/// and `digest` too for a request with a body.
pub fn covered_headers(with_body: bool) -> (r: Vec<&'static str>)
    ensures
        with_body ==> r@.len() == 4 && r@[3]@ == "digest"@,
        !with_body ==> r@.len() == 3,
        r@[0]@ == "(request-target)"@,
        r@[1]@ == "host"@,
        r@[2]@ == "date"@,
{
    let mut r: Vec<&'static str> = Vec::new();
    r.push("(request-target)");
    r.push("host");
    r.push("date");
    if with_body {
        r.push("digest");
    }
    r
}

} // verus!
