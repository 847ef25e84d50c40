//! SVG markup fragments.
//!
//! One composition routine builds the fragment of every drawable: the
//! opening tag with its attributes in order, then either a self-closing
//! tag or the inner content followed by a closing tag.

use vstd::prelude::*;
use vstd::string::StringExecFns;

verus! {

/// The text of one attribute: ` name="value"`.
pub open spec fn attr_str(name: Seq<char>, value: Seq<char>) -> Seq<char> {
    " "@ + name + "=\""@ + value + "\""@
}

/// The concatenated attribute text of the pairs from index `i` on.
pub open spec fn attrs_str_from(ps: Seq<(Seq<char>, Seq<char>)>, i: int) -> Seq<char>
    decreases ps.len() - i,
{
    if i < 0 || i >= ps.len() {
        Seq::<char>::empty()
    } else {
        attr_str(ps[i].0, ps[i].1) + attrs_str_from(ps, i + 1)
    }
}

/// The concatenated attribute text of all the pairs, in order.
pub open spec fn attrs_str(ps: Seq<(Seq<char>, Seq<char>)>) -> Seq<char> {
    attrs_str_from(ps, 0)
}

/// The views of a vector of attribute pairs.
pub open spec fn pairs_view(ps: Seq<(String, String)>) -> Seq<(Seq<char>, Seq<char>)> {
    ps.map_values(|p: (String, String)| (p.0@, p.1@))
}

/// One markup fragment: the opening tag with its attributes, then either
/// a self-closing end (no inner content) or the content followed by a
/// closing tag.
pub open spec fn tag_str(
    name: Seq<char>,
    ps: Seq<(Seq<char>, Seq<char>)>,
    inner: Option<Seq<char>>,
) -> Seq<char> {
    let opening = "<"@ + name + attrs_str(ps);
    match inner {
        Option::None => opening + "/>"@,
        Option::Some(txt) => opening + ">"@ + txt + "</"@ + name + ">"@,
    }
}

/// Build one markup fragment from a tag name, its attributes in order,
/// and optional inner content.
pub fn compose_tag(name: &str, props: &Vec<(String, String)>, inner: &Option<String>) -> (s: String)
    ensures
        s@ == tag_str(
            name@,
            pairs_view(props@),
            match inner {
                Option::Some(t) => Option::Some(t@),
                Option::None => Option::None,
            },
        ),
{
    let ghost pv = pairs_view(props@);
    let mut s = String::from_str("<");
    s.append(name);
    let mut i: usize = 0;
    while i < props.len()
        invariant
            0 <= i <= props@.len(),
            pv == pairs_view(props@),
            s@ + attrs_str_from(pv, i as int) == "<"@ + name@ + attrs_str(pv),
        decreases props@.len() - i,
    {
        let pair = &props[i];
        proof {
            assert(pv[i as int] == (pair.0@, pair.1@));
        }
        let ghost before = s@;
        s.append(" ");
        s.append(pair.0.as_str());
        s.append("=\"");
        s.append(pair.1.as_str());
        s.append("\"");
        proof {
            assert(s@ =~= before + attr_str(pv[i as int].0, pv[i as int].1));
            assert(s@ + attrs_str_from(pv, i + 1) =~= before + attrs_str_from(pv, i as int));
        }
        i = i + 1;
    }
    match inner {
        Option::None => {
            s.append("/>");
        },
        Option::Some(txt) => {
            s.append(">");
            s.append(txt.as_str());
            s.append("</");
            s.append(name);
            s.append(">");
        },
    }
    proof {
        assert(s@ =~= tag_str(
            name@,
            pv,
            match inner {
                Option::Some(t) => Option::Some(t@),
                Option::None => Option::None,
            },
        ));
    }
    s
}

} // verus!
