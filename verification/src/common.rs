//! The cookies that the front end forwards to the back end.

use vstd::prelude::*;
use vstd::string::*;

verus! {

/// The entry of one cookie in the header: ` name=value;`.
pub open spec fn cookie_entry(name: Seq<char>, value: Seq<char>) -> Seq<char> {
    seq![' '] + name + seq!['='] + value + seq![';']
}

/// The `Cookie` header that carries the cookies, in order, one entry each.
pub open spec fn cookie_header_spec(cookies: Seq<(String, String)>) -> Seq<char>
    decreases cookies.len(),
{
    if cookies.len() == 0 {
        Seq::empty()
    } else {
        cookie_header_spec(cookies.drop_last()) + cookie_entry(cookies.last().0@, cookies.last().1@)
    }
}

/// The header of two lists of cookies, one after the other, is the header
/// of the first followed by the header of the second.
pub proof fn cookie_header_concat(a: Seq<(String, String)>, b: Seq<(String, String)>)
    ensures
        cookie_header_spec(a + b) == cookie_header_spec(a) + cookie_header_spec(b),
    decreases b.len(),
{
    if b.len() == 0 {
        assert(a + b =~= a);
        assert(cookie_header_spec(a) + cookie_header_spec(b) =~= cookie_header_spec(a));
    } else {
        cookie_header_concat(a, b.drop_last());
        assert((a + b).drop_last() =~= a + b.drop_last());
        assert((a + b).last() == b.last());
        let e = cookie_entry(b.last().0@, b.last().1@);
        assert(cookie_header_spec(a) + cookie_header_spec(b.drop_last()) + e
            =~= cookie_header_spec(a) + (cookie_header_spec(b.drop_last()) + e));
    }
}

/// Each cookie adds its whole name and value to the end of the header:
/// a space, the name, `=`, the value, and `;`.
pub proof fn cookie_header_appends_whole_cookie(cookies: Seq<(String, String)>, name: String, value: String)
    ensures
        cookie_header_spec(cookies.push((name, value)))
            == cookie_header_spec(cookies) + seq![' '] + name@ + seq!['='] + value@ + seq![';'],
        cookie_header_spec(cookies.push((name, value))).len()
            == cookie_header_spec(cookies).len() + name@.len() + value@.len() + 3,
{
    let c = cookies.push((name, value));
    assert(c.drop_last() =~= cookies);
    assert(c.last() == (name, value));
    assert(cookie_header_spec(cookies) + cookie_entry(name@, value@)
        =~= cookie_header_spec(cookies) + seq![' '] + name@ + seq!['='] + value@ + seq![';']);
}

/// The header of one cookie is that cookie whole: ` name=value;`.
pub proof fn cookie_header_of_one(name: String, value: String)
    ensures
        cookie_header_spec(seq![(name, value)]) == seq![' '] + name@ + seq!['='] + value@ + seq![';'],
{
    cookie_header_appends_whole_cookie(Seq::empty(), name, value);
    assert(Seq::<(String, String)>::empty().push((name, value)) =~= seq![(name, value)]);
    assert(cookie_header_spec(Seq::<(String, String)>::empty()) =~= Seq::<char>::empty());
    assert(Seq::<char>::empty() + seq![' '] + name@ + seq!['='] + value@ + seq![';']
        =~= seq![' '] + name@ + seq!['='] + value@ + seq![';']);
}

/// The `Cookie` header for the back end, given the cookies of the request
/// to the front end by name and value: each as ` name=value;`, in order.
pub fn cookie_header(cookies: &Vec<(String, String)>) -> (r: String)
    ensures
        r@ == cookie_header_spec(cookies@),
{
    let mut all = String::new();
    let mut i: usize = 0;
    while i < cookies.len()
        invariant
            i <= cookies.len(),
            all@ == cookie_header_spec(cookies@.take(i as int)),
        decreases cookies.len() - i,
    {
        let ghost before = all@;
        all.append(" ");
        all.append(cookies[i].0.as_str());
        all.append("=");
        all.append(cookies[i].1.as_str());
        all.append(";");
        proof {
            reveal_strlit(" ");
            reveal_strlit("=");
            reveal_strlit(";");
            assert(cookies@.take(i + 1).drop_last() =~= cookies@.take(i as int));
            assert(cookies@.take(i + 1).last() == cookies@[i as int]);
            assert(all@ =~= before + cookie_entry(cookies@[i as int].0@, cookies@[i as int].1@));
        }
        i = i + 1;
    }
    proof {
        assert(cookies@.take(cookies@.len() as int) =~= cookies@);
    }
    all
}

} // verus!
