//! The format-neutral structured document a batch renders to — one mapping
//! with the single field `"data"` holding a sequence of scalar strings —
//! and its serialization into each supported output format.
use crate::text::quoted;
use vstd::prelude::*;

verus! {

/// A rendered batch: the values of one generation run, each already turned
/// into its scalar string, under the stable field name `"data"`.
#[derive(Debug, Clone)]
pub struct Document {
    pub data: Vec<String>,
}

impl View for Document {
    type V = Seq<Seq<char>>;

    open spec fn view(&self) -> Seq<Seq<char>> {
        self.data.deep_view()
    }
}

/// The document's items, quoted and escaped, joined by `sep`.
pub open spec fn items_text(d: Seq<Seq<char>>, sep: Seq<char>) -> Seq<char>
    decreases d.len(),
{
    if d.len() == 0 {
        Seq::empty()
    } else if d.len() == 1 {
        quoted(d[0])
    } else {
        quoted(d[0]) + sep + items_text(d.skip(1), sep)
    }
}

/// The JSON serialization: `{"data":[...]}` with no whitespace.
pub open spec fn json_text(d: Seq<Seq<char>>) -> Seq<char> {
    seq!['{', '"', 'd', 'a', 't', 'a', '"', ':', '['] + items_text(d, seq![',']) + seq![']', '}']
}

/// One YAML block-sequence entry per item: `- "item"` and a newline.
pub open spec fn yaml_items(d: Seq<Seq<char>>) -> Seq<char>
    decreases d.len(),
{
    if d.len() == 0 {
        Seq::empty()
    } else {
        seq!['-', ' '] + quoted(d[0]) + seq!['\n'] + yaml_items(d.skip(1))
    }
}

/// The YAML serialization: a `data:` key over a block sequence of
/// double-quoted scalars, or an empty flow sequence when there are no items.
pub open spec fn yaml_text(d: Seq<Seq<char>>) -> Seq<char> {
    if d.len() == 0 {
        seq!['d', 'a', 't', 'a', ':', ' ', '[', ']', '\n']
    } else {
        seq!['d', 'a', 't', 'a', ':', '\n'] + yaml_items(d)
    }
}

/// The TOML serialization: `data = [...]` with basic strings.
pub open spec fn toml_text(d: Seq<Seq<char>>) -> Seq<char> {
    seq!['d', 'a', 't', 'a', ' ', '=', ' ', '['] + items_text(d, seq![',', ' ']) + seq![']', '\n']
}

/// The plain-text serialization: a debug-style listing of the raw batch.
pub open spec fn plain_text(d: Seq<Seq<char>>) -> Seq<char> {
    seq!['['] + items_text(d, seq![',', ' ']) + seq![']']
}

pub proof fn lemma_items_push(d: Seq<Seq<char>>, x: Seq<char>, sep: Seq<char>)
    ensures
        items_text(d.push(x), sep) == if d.len() == 0 {
            quoted(x)
        } else {
            items_text(d, sep) + sep + quoted(x)
        },
    decreases d.len(),
{
    let p = d.push(x);
    if d.len() == 0 {
        assert(p.len() == 1 && p[0] == x);
    } else if d.len() == 1 {
        assert(p.skip(1) =~= seq![x]);
        assert(items_text(p.skip(1), sep) == quoted(x));
        assert(p[0] == d[0]);
    } else {
        assert(p.skip(1) =~= d.skip(1).push(x));
        assert(p[0] == d[0]);
        lemma_items_push(d.skip(1), x, sep);
        assert(items_text(p, sep) == quoted(d[0]) + sep + (items_text(d.skip(1), sep) + sep
            + quoted(x)));
        assert(items_text(d, sep) == quoted(d[0]) + sep + items_text(d.skip(1), sep));
        assert(quoted(d[0]) + sep + (items_text(d.skip(1), sep) + sep + quoted(x)) =~= (quoted(d[0])
            + sep + items_text(d.skip(1), sep)) + sep + quoted(x));
    }
}

pub proof fn lemma_yaml_items_push(d: Seq<Seq<char>>, x: Seq<char>)
    ensures
        yaml_items(d.push(x)) == yaml_items(d) + (seq!['-', ' '] + quoted(x) + seq!['\n']),
    decreases d.len(),
{
    let p = d.push(x);
    if d.len() == 0 {
        assert(p.skip(1) =~= Seq::<Seq<char>>::empty());
        assert(p[0] == x);
        assert(yaml_items(Seq::<Seq<char>>::empty()) == Seq::<char>::empty());
        assert(yaml_items(p) == seq!['-', ' '] + quoted(x) + seq!['\n'] + Seq::<char>::empty());
        assert(yaml_items(p) =~= Seq::<char>::empty() + (seq!['-', ' '] + quoted(x) + seq!['\n']));
    } else {
        assert(p.skip(1) =~= d.skip(1).push(x));
        assert(p[0] == d[0]);
        lemma_yaml_items_push(d.skip(1), x);
        assert(yaml_items(p) == seq!['-', ' '] + quoted(d[0]) + seq!['\n'] + (yaml_items(d.skip(1))
            + (seq!['-', ' '] + quoted(x) + seq!['\n'])));
        assert(yaml_items(d) == seq!['-', ' '] + quoted(d[0]) + seq!['\n'] + yaml_items(d.skip(1)));
        assert(seq!['-', ' '] + quoted(d[0]) + seq!['\n'] + (yaml_items(d.skip(1)) + (seq!['-', ' ']
            + quoted(x) + seq!['\n'])) =~= (seq!['-', ' '] + quoted(d[0]) + seq!['\n'] + yaml_items(
            d.skip(1))) + (seq!['-', ' '] + quoted(x) + seq!['\n']));
    }
}

/// Appends the quoted items joined by `sep`.
fn push_items(out: &mut String, data: &Vec<String>, sep: &str)
    ensures
        final(out)@ == old(out)@ + items_text(data.deep_view(), sep@),
{
    let n = data.len();
    let mut i: usize = 0;
    while i < n
        invariant
            n == data.len(),
            i <= n,
            out@ == old(out)@ + items_text(data.deep_view().take(i as int), sep@),
        decreases n - i,
    {
        if i > 0 {
            out.append(sep);
        }
        push_quoted_string(out, &data[i]);
        proof {
            assert(data.deep_view().take(i as int).push(data.deep_view()[i as int]) =~= data
                .deep_view()
                .take(i + 1 as int));
            lemma_items_push(data.deep_view().take(i as int), data.deep_view()[i as int], sep@);
            assert(data.deep_view()[i as int] == data[i as int]@);
        }
        i = i + 1;
    }
    assert(data.deep_view().take(n as int) =~= data.deep_view());
}

fn push_quoted_string(out: &mut String, s: &String)
    ensures
        final(out)@ == old(out)@ + quoted(s@),
{
    crate::text::push_quoted(out, s.as_str());
}

impl Document {
    /// Serializes the document as compact JSON.
    pub fn to_json_string(&self) -> (r: String)
        ensures
            r@ == json_text(self@),
    {
        let mut out = String::new();
        out.append("{\"data\":[");
        proof {
            reveal_strlit("{\"data\":[");
            assert(Seq::<char>::empty() + "{\"data\":["@ =~= seq![
                '{',
                '"',
                'd',
                'a',
                't',
                'a',
                '"',
                ':',
                '[',
            ]);
        }
        push_items(&mut out, &self.data, ",");
        proof {
            reveal_strlit(",");
            assert(","@ =~= seq![',']);
        }
        out.append("]}");
        proof {
            reveal_strlit("]}");
            assert("]}"@ =~= seq![']', '}']);
            assert(out@ =~= json_text(self@));
        }
        out
    }

    /// Serializes the document as YAML.
    pub fn to_yaml_string(&self) -> (r: String)
        ensures
            r@ == yaml_text(self@),
    {
        let mut out = String::new();
        if self.data.len() == 0 {
            out.append("data: []\n");
            proof {
                reveal_strlit("data: []\n");
                assert(out@ =~= yaml_text(self@));
            }
            return out;
        }
        out.append("data:\n");
        proof {
            reveal_strlit("data:\n");
            assert(Seq::<char>::empty() + "data:\n"@ =~= seq!['d', 'a', 't', 'a', ':', '\n']);
        }
        let n = self.data.len();
        let mut i: usize = 0;
        while i < n
            invariant
                n == self.data.len(),
                i <= n,
                out@ == seq!['d', 'a', 't', 'a', ':', '\n'] + yaml_items(
                    self.data.deep_view().take(i as int),
                ),
            decreases n - i,
        {
            out.append("- ");
            push_quoted_string(&mut out, &self.data[i]);
            out.push('\n');
            proof {
                reveal_strlit("- ");
                assert("- "@ =~= seq!['-', ' ']);
                assert(self.data.deep_view().take(i as int).push(
                    self.data.deep_view()[i as int],
                ) =~= self.data.deep_view().take(i + 1 as int));
                lemma_yaml_items_push(
                    self.data.deep_view().take(i as int),
                    self.data.deep_view()[i as int],
                );
                assert(self.data.deep_view()[i as int] == self.data[i as int]@);
                assert(out@ =~= seq!['d', 'a', 't', 'a', ':', '\n'] + yaml_items(
                    self.data.deep_view().take(i + 1 as int),
                ));
            }
            i = i + 1;
        }
        assert(self.data.deep_view().take(n as int) =~= self.data.deep_view());
        out
    }

    /// Serializes the document as TOML.
    pub fn to_toml_string(&self) -> (r: String)
        ensures
            r@ == toml_text(self@),
    {
        let mut out = String::new();
        out.append("data = [");
        proof {
            reveal_strlit("data = [");
            assert(Seq::<char>::empty() + "data = ["@ =~= seq![
                'd',
                'a',
                't',
                'a',
                ' ',
                '=',
                ' ',
                '[',
            ]);
        }
        push_items(&mut out, &self.data, ", ");
        proof {
            reveal_strlit(", ");
            assert(", "@ =~= seq![',', ' ']);
        }
        out.append("]\n");
        proof {
            reveal_strlit("]\n");
            assert("]\n"@ =~= seq![']', '\n']);
            assert(out@ =~= toml_text(self@));
        }
        out
    }

    /// Serializes the document as a plain-text listing.
    pub fn to_plain_string(&self) -> (r: String)
        ensures
            r@ == plain_text(self@),
    {
        let mut out = String::new();
        out.push('[');
        push_items(&mut out, &self.data, ", ");
        proof {
            reveal_strlit(", ");
            assert(", "@ =~= seq![',', ' ']);
        }
        out.push(']');
        assert(out@ =~= plain_text(self@));
        out
    }
}

} // verus!
