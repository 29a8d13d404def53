//! Tool names, and their single-string form for protocols that know no
//! namespaces.

use std::cmp::Ordering;
use vstd::prelude::*;
use vstd::string::*;

use crate::text::cat;
use crate::text::cat3;
use crate::text::chars_of;
use crate::text::lemma_text_order;
use crate::text::order;
use crate::text::text_of;
use crate::text::text_order;

verus! {

/// What stands between namespace and name in the single-string form.
///
/// A name without a namespace must not contain it, or it is read back as a
/// namespaced one.
pub const TOOL_NAMESPACE_DELIMITER: &'static str = "__";

/// Identifies a callable tool, with its namespace when it has one.
#[derive(Clone, Debug, Eq, Hash, PartialEq)]
pub struct ToolName {
    pub name: String,
    pub namespace: Option<String>,
}

/// What a `ToolName` means.
#[verifier::ext_equal]
pub struct ToolNameView {
    pub name: Seq<char>,
    pub namespace: Option<Seq<char>>,
}

impl View for ToolName {
    type V = ToolNameView;

    open spec fn view(&self) -> ToolNameView {
        ToolNameView { name: self.name@, namespace: self.namespace.deep_view() }
    }
}

impl DeepView for ToolName {
    type V = ToolNameView;

    open spec fn deep_view(&self) -> ToolNameView {
        self.view()
    }
}

/// The delimiter as a sequence.
pub open spec fn delimiter() -> Seq<char> {
    seq!['_', '_']
}

/// Whether a delimiter begins at the position.
pub open spec fn delimiter_at(s: Seq<char>, i: int) -> bool {
    0 <= i && i + 1 < s.len() && s[i] == '_' && s[i + 1] == '_'
}

/// Whether the text contains the delimiter.
pub open spec fn has_delimiter(s: Seq<char>) -> bool {
    exists|i: int| delimiter_at(s, i)
}

/// The position of the first delimiter at or after `from`, or the length of the
/// text when there is none.
pub open spec fn first_delimiter(s: Seq<char>, from: int) -> int
    decreases s.len() - from,
{
    if from < 0 || from >= s.len() {
        s.len() as int
    } else if delimiter_at(s, from) {
        from
    } else {
        first_delimiter(s, from + 1)
    }
}

/// The single-string form: `{namespace}__{name}`, or the bare name.
pub open spec fn flat_name(tool: ToolNameView) -> Seq<char> {
    match tool.namespace {
        Some(namespace) => namespace + delimiter() + tool.name,
        None => tool.name,
    }
}

/// The tool that a single string names: split at the first delimiter, if any.
pub open spec fn tool_of_flat(flat: Seq<char>) -> ToolNameView {
    let i = first_delimiter(flat, 0);
    if i < flat.len() {
        ToolNameView {
            name: flat.subrange(i + 2, flat.len() as int),
            namespace: Some(flat.subrange(0, i)),
        }
    } else {
        ToolNameView { name: flat, namespace: None }
    }
}

/// The order of tools: by namespace and name, a bare name standing where a
/// namespace would and before all names in that namespace.
pub open spec fn tool_order(a: ToolNameView, b: ToolNameView) -> int {
    let first_a = match a.namespace {
        Some(n) => n,
        None => a.name,
    };
    let first_b = match b.namespace {
        Some(n) => n,
        None => b.name,
    };
    let first = text_order(first_a, first_b);
    if first != 0 {
        first
    } else {
        match (a.namespace, b.namespace) {
            (None, None) => 0,
            (None, Some(_)) => -1,
            (Some(_), None) => 1,
            (Some(_), Some(_)) => text_order(a.name, b.name),
        }
    }
}

proof fn lemma_first_delimiter(s: Seq<char>, from: int)
    requires
        0 <= from <= s.len(),
    ensures
        from <= first_delimiter(s, from) <= s.len(),
        first_delimiter(s, from) < s.len() ==> delimiter_at(s, first_delimiter(s, from)),
        forall|i: int| from <= i < first_delimiter(s, from) ==> !delimiter_at(s, i),
    decreases s.len() - from,
{
    if from < s.len() && !delimiter_at(s, from) {
        lemma_first_delimiter(s, from + 1);
    }
}

/// Reading a single-string form and flattening it again gives the same string.
pub proof fn law_flat_of_tool_of_flat(flat: Seq<char>)
    ensures
        flat_name(tool_of_flat(flat)) == flat,
{
    lemma_first_delimiter(flat, 0);
    let i = first_delimiter(flat, 0);
    if i < flat.len() {
        assert(flat.subrange(0, i) + delimiter() + flat.subrange(i + 2, flat.len() as int) =~= flat);
    }
}

/// A tool without a namespace is read back unchanged from its single-string
/// form when its name contains no delimiter.
pub proof fn law_plain_round_trip(name: Seq<char>)
    requires
        !has_delimiter(name),
    ensures
        tool_of_flat(flat_name(ToolNameView { name, namespace: None })) == (ToolNameView {
            name,
            namespace: None,
        }),
{
    lemma_first_delimiter(name, 0);
    let i = first_delimiter(name, 0);
    if i < name.len() {
        assert(delimiter_at(name, i));
    }
}

/// A namespaced tool is read back unchanged from its single-string form when no
/// delimiter begins inside the namespace: it contains none and does not end in
/// an underscore. The name is free to contain delimiters.
pub proof fn law_namespaced_round_trip(namespace: Seq<char>, name: Seq<char>)
    requires
        !has_delimiter(namespace),
        namespace.len() == 0 || namespace[namespace.len() - 1] != '_',
    ensures
        tool_of_flat(flat_name(ToolNameView { name, namespace: Some(namespace) })) == (ToolNameView {
            name,
            namespace: Some(namespace),
        }),
{
    let flat = namespace + delimiter() + name;
    lemma_first_delimiter(flat, 0);
    let n = namespace.len() as int;
    assert(delimiter_at(flat, n));
    let i = first_delimiter(flat, 0);
    if i < n {
        assert(delimiter_at(flat, i));
        if i + 1 < n {
            assert(delimiter_at(namespace, i));
        }
    }
    assert(i == n);
    assert(flat.subrange(0, n) =~= namespace);
    assert(flat.subrange(n + 2, flat.len() as int) =~= name);
}

impl ToolName {
    /// A tool with an optional namespace.
    pub fn new(namespace: Option<String>, name: String) -> (r: Self)
        ensures
            r.namespace == namespace,
            r.name == name,
    {
        Self { name, namespace }
    }

    /// A tool without a namespace.
    pub fn plain(name: &str) -> (r: Self)
        ensures
            r@ == (ToolNameView { name: name@, namespace: None }),
    {
        Self { name: name.to_owned(), namespace: None }
    }

    /// A tool in a namespace.
    pub fn namespaced(namespace: &str, name: &str) -> (r: Self)
        ensures
            r@ == (ToolNameView { name: name@, namespace: Some(namespace@) }),
    {
        Self { name: name.to_owned(), namespace: Some(namespace.to_owned()) }
    }

    /// The single-string form, by plain concatenation: nothing is trimmed.
    pub fn to_flat_wire_name(&self) -> (r: String)
        ensures
            r@ == flat_name(self@),
    {
        match &self.namespace {
            Some(namespace) => {
                proof {
                    reveal_strlit("__");
                    assert("__"@ =~= delimiter());
                }
                cat3(namespace.as_str(), TOOL_NAMESPACE_DELIMITER, self.name.as_str())
            },
            None => self.name.clone(),
        }
    }

    /// The tool that a single string names, split at the first delimiter.
    pub fn from_flat_wire_name(flat: &str) -> (r: Self)
        ensures
            r@ == tool_of_flat(flat@),
    {
        let chars = chars_of(flat);
        let n: usize = chars.len();
        let mut i: usize = 0;
        while i < n
            invariant
                i <= n == chars@.len(),
                chars@ == flat@,
                first_delimiter(flat@, 0) == first_delimiter(flat@, i as int),
            decreases n - i,
        {
            if i + 1 < n && chars[i] == '_' && chars[i + 1] == '_' {
                let namespace = text_of(&chars, 0, i);
                let name = text_of(&chars, i + 2, n);
                return Self { name, namespace: Some(namespace) };
            }
            i += 1;
        }
        Self::plain(flat)
    }

    /// The text that shows the tool: namespace and name with nothing between.
    pub fn display(&self) -> (r: String)
        ensures
            r@ == (match self@.namespace {
                Some(namespace) => namespace + self@.name,
                None => self@.name,
            }),
    {
        match &self.namespace {
            Some(namespace) => cat(namespace.as_str(), self.name.as_str()),
            None => self.name.clone(),
        }
    }

    /// The order of two tools.
    pub fn cmp(&self, other: &Self) -> (r: Ordering)
        ensures
            r == (if tool_order(self@, other@) < 0 {
                Ordering::Less
            } else if tool_order(self@, other@) > 0 {
                Ordering::Greater
            } else {
                Ordering::Equal
            }),
    {
        let first_a = match &self.namespace {
            Some(namespace) => namespace.as_str(),
            None => self.name.as_str(),
        };
        let first_b = match &other.namespace {
            Some(namespace) => namespace.as_str(),
            None => other.name.as_str(),
        };
        let first: i8 = order(first_a, first_b);
        let decided: i8 = if first != 0 {
            first
        } else {
            match (&self.namespace, &other.namespace) {
                (None, None) => 0,
                (None, Some(_)) => -1,
                (Some(_), None) => 1,
                (Some(_), Some(_)) => order(self.name.as_str(), other.name.as_str()),
            }
        };
        if decided < 0 {
            Ordering::Less
        } else if decided > 0 {
            Ordering::Greater
        } else {
            Ordering::Equal
        }
    }
}

impl From<String> for ToolName {
    fn from(name: String) -> (r: Self) {
        ToolName { name, namespace: None }
    }
}

impl vstd::std_specs::convert::FromSpecImpl<String> for ToolName {
    open spec fn obeys_from_spec() -> bool {
        true
    }

    open spec fn from_spec(name: String) -> ToolName {
        ToolName { name, namespace: None }
    }
}

/// The single string of a tool is its name, behind its namespace and two
/// underscores when it has one.
pub proof fn law_flat_names_are_spelled_out(name: Seq<char>, namespace: Seq<char>)
    ensures
        flat_name(ToolNameView { name, namespace: None }) == name,
        flat_name(ToolNameView { name, namespace: Some(namespace) }) == namespace + "__"@ + name,
{
    reveal_strlit("__");
    assert("__"@ =~= delimiter());
}

/// Tools come in the order of their namespaces, those of one namespace in that of their
/// names, and a bare name comes where its namespace would, before all that is in it.
pub proof fn law_tools_come_in_order(a: Seq<char>, b: Seq<char>, m: Seq<char>, n: Seq<char>)
    ensures
        text_order(a, b) < 0 ==> tool_order(
            ToolNameView { name: m, namespace: Some(a) },
            ToolNameView { name: n, namespace: Some(b) },
        ) < 0,
        text_order(m, n) < 0 ==> tool_order(
            ToolNameView { name: m, namespace: Some(a) },
            ToolNameView { name: n, namespace: Some(a) },
        ) < 0,
        text_order(a, b) < 0 ==> tool_order(
            ToolNameView { name: a, namespace: None },
            ToolNameView { name: b, namespace: None },
        ) < 0,
        tool_order(
            ToolNameView { name: a, namespace: None },
            ToolNameView { name: n, namespace: Some(a) },
        ) < 0,
        text_order(a, b) < 0 ==> tool_order(
            ToolNameView { name: a, namespace: None },
            ToolNameView { name: n, namespace: Some(b) },
        ) < 0,
        tool_order(
            ToolNameView { name: m, namespace: Some(a) },
            ToolNameView { name: m, namespace: Some(a) },
        ) == 0,
{
    lemma_text_order(a, a);
    lemma_text_order(m, m);
}

} // verus!
