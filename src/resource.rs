//! Decoding a resource object into its typed header and open field map, and
//! writing it back.

use vstd::prelude::*;
use vstd::string::StringExecFns;
use crate::error::Error;
use crate::json::{
    entries_view, find, lookup, object_entries_of, opt_string_of, parse_object, parse_opt_string,
    parse_string, quote, quoted_of, str_eq, string_of, EntriesV,
};
use crate::types::{opt_view, Resource, ResourceV};

verus! {

/// The keys that the typed header of a resource takes out of its object.
pub open spec fn is_header(k: Seq<char>) -> bool {
    k == "gid"@ || k == "resource_type"@
}

/// The entries of `e` whose keys are not header keys, in order.
pub open spec fn strip_header(e: EntriesV) -> EntriesV
    decreases e.len(),
{
    if e.len() == 0 {
        e
    } else {
        let rest = strip_header(e.take(e.len() - 1));
        if is_header(e.last().0) {
            rest
        } else {
            rest.push(e.last())
        }
    }
}

/// The type tag of an object: absent or `null` is `None`; a value that is
/// neither a string nor `null` makes the object no resource.
pub open spec fn type_tag_of(e: EntriesV) -> Option<Option<Seq<char>>> {
    match lookup(e, "resource_type"@) {
        None => Some(None),
        Some(t) => opt_string_of(t),
    }
}

/// The resource that the object entries `e` describe, if they describe one:
/// `gid` must be a string.
pub open spec fn resource_of_entries(e: EntriesV) -> Option<ResourceV> {
    match lookup(e, "gid"@) {
        None => None,
        Some(g) => match string_of(g) {
            None => None,
            Some(gid) => match type_tag_of(e) {
                None => None,
                Some(t) => Some(ResourceV { gid, resource_type: t, fields: strip_header(e) }),
            },
        },
    }
}

/// The resource that the JSON text `s` describes, if it describes one.
pub open spec fn resource_of(s: Seq<char>) -> Option<ResourceV> {
    match object_entries_of(s) {
        None => None,
        Some(e) => resource_of_entries(e),
    }
}

/// The JSON text of a type tag.
pub open spec fn tag_text(t: Option<Seq<char>>) -> Seq<char> {
    match t {
        Some(s) => quoted_of(s),
        None => "null"@,
    }
}

/// The object entries that a resource is written as: the header first, then
/// every other field in order.
pub open spec fn entries_of_resource(r: ResourceV) -> EntriesV {
    seq![("gid"@, quoted_of(r.gid)), ("resource_type"@, tag_text(r.resource_type))] + r.fields
}

/// The JSON text of an object with entries `e`.
pub open spec fn object_text(e: EntriesV) -> Seq<char>
    decreases e.len(),
{
    if e.len() == 0 {
        "{}"@
    } else {
        "{"@ + members_text(e) + "}"@
    }
}

/// The members of an object, separated by commas.
pub open spec fn members_text(e: EntriesV) -> Seq<char>
    decreases e.len(),
{
    if e.len() == 0 {
        Seq::empty()
    } else if e.len() == 1 {
        quoted_of(e[0].0) + ":"@ + e[0].1
    } else {
        members_text(e.take(e.len() - 1)) + ","@ + quoted_of(e.last().0) + ":"@ + e.last().1
    }
}

proof fn lemma_lookup_push(s: EntriesV, x: (Seq<char>, Seq<char>), k: Seq<char>)
    ensures
        lookup(s.push(x), k) == (if lookup(s, k) is Some {
            lookup(s, k)
        } else if x.0 == k {
            Some(x.1)
        } else {
            None
        }),
    decreases s.len(),
{
    if s.len() > 0 {
        assert(s.push(x).drop_first() =~= s.drop_first().push(x));
        lemma_lookup_push(s.drop_first(), x, k);
    } else {
        assert(s.push(x).drop_first() =~= s);
    }
}

/// Taking the header out leaves the value of every other key unchanged.
pub proof fn lemma_strip_header_lookup(e: EntriesV, k: Seq<char>)
    requires
        !is_header(k),
    ensures
        lookup(strip_header(e), k) == lookup(e, k),
    decreases e.len(),
{
    if e.len() > 0 {
        let t = e.take(e.len() - 1);
        assert(e =~= t.push(e.last()));
        lemma_strip_header_lookup(t, k);
        lemma_lookup_push(t, e.last(), k);
        if !is_header(e.last().0) {
            lemma_lookup_push(strip_header(t), e.last(), k);
        }
    }
}

/// Decoding an object into a resource and writing the resource back keeps
/// every key of the object: each field outside the header keeps its JSON text
/// exactly, `gid` keeps the string it held, and `resource_type` keeps its
/// string or its `null`.
pub proof fn lemma_round_trip(e: EntriesV, k: Seq<char>)
    requires
        resource_of_entries(e) is Some,
    ensures
        ({
            let r = resource_of_entries(e).unwrap();
            let out = entries_of_resource(r);
            &&& !is_header(k) ==> lookup(out, k) == lookup(e, k)
            &&& lookup(out, "gid"@) == Some(quoted_of(r.gid))
            &&& string_of(lookup(e, "gid"@).unwrap()) == Some(r.gid)
            &&& lookup(out, "resource_type"@) == Some(tag_text(r.resource_type))
            &&& lookup(e, "resource_type"@) is Some ==> opt_string_of(
                lookup(e, "resource_type"@).unwrap(),
            ) == Some(r.resource_type)
        }),
{
    let r = resource_of_entries(e).unwrap();
    let out = entries_of_resource(r);
    assert(out.drop_first().drop_first() =~= r.fields);
    assert(out[0].0 == "gid"@);
    assert(out.drop_first()[0].0 == "resource_type"@);
    if !is_header(k) {
        lemma_strip_header_lookup(e, k);
        assert(lookup(out, k) == lookup(out.drop_first(), k));
        assert(lookup(out.drop_first(), k) == lookup(out.drop_first().drop_first(), k));
    }
    assert("gid"@ != "resource_type"@) by {
        reveal_strlit("gid");
        reveal_strlit("resource_type");
    }
    assert(lookup(out, "resource_type"@) == lookup(out.drop_first(), "resource_type"@));
}

/// A copy of `s` whose model equals that of `s`.
pub fn copy_entries(s: &Vec<(String, String)>) -> (r: Vec<(String, String)>)
    ensures
        entries_view(r@) == entries_view(s@),
{
    let mut r: Vec<(String, String)> = Vec::new();
    let mut i: usize = 0;
    while i < s.len()
        invariant
            i <= s.len(),
            entries_view(r@) == entries_view(s@.take(i as int)),
        decreases s.len() - i,
    {
        let ghost r0 = r@;
        r.push((s[i].0.clone(), s[i].1.clone()));
        assert(s@.take(i + 1) =~= s@.take(i as int).push(s@[i as int]));
        assert(entries_view(r@) =~= entries_view(r0).push((s@[i as int].0@, s@[i as int].1@)));
        assert(entries_view(s@.take(i + 1)) =~= entries_view(s@.take(i as int)).push((s@[i as int].0@, s@[i as int].1@)));
        i = i + 1;
    }
    assert(s@.take(s.len() as int) =~= s@);
    r
}

/// A copy of an optional string.
pub fn copy_opt(o: &Option<String>) -> (r: Option<String>)
    ensures
        opt_view(r) == opt_view(*o),
{
    match o {
        Some(s) => Some(s.clone()),
        None => None,
    }
}

/// Decodes object entries into a resource, as `resource_of_entries` says.
pub fn resource_from_entries(e: &Vec<(String, String)>) -> (r: Option<Resource>)
    ensures
        match r {
            Some(res) => resource_of_entries(entries_view(e@)) == Some(res@),
            None => resource_of_entries(entries_view(e@)) is None,
        },
{
    let g = match find(e, "gid") {
        Some(g) => g,
        None => return None,
    };
    let gid = match parse_string(g.as_str()) {
        Some(s) => s,
        None => return None,
    };
    let tag = match find(e, "resource_type") {
        None => None,
        Some(t) => match parse_opt_string(t.as_str()) {
            Some(x) => x,
            None => return None,
        },
    };
    let mut fields: Vec<(String, String)> = Vec::new();
    let mut i: usize = 0;
    while i < e.len()
        invariant
            i <= e.len(),
            entries_view(fields@) == strip_header(entries_view(e@).take(i as int)),
        decreases e.len() - i,
    {
        let ghost ev = entries_view(e@);
        assert(ev.take(i + 1).take(i as int) =~= ev.take(i as int));
        let k = &e[i].0;
        if !(str_eq(k.as_str(), "gid") || str_eq(k.as_str(), "resource_type")) {
            fields.push((k.clone(), e[i].1.clone()));
        }
        i = i + 1;
    }
    assert(entries_view(e@).take(e.len() as int) =~= entries_view(e@));
    Some(Resource { gid, resource_type: tag, fields })
}

impl Resource {
    /// Decodes the JSON text of one resource object.
    pub fn from_json_text(text: &str) -> (r: Result<Resource, Error>)
        ensures
            match r {
                Ok(res) => resource_of(text@) == Some(res@),
                Err(e) => resource_of(text@) is None && e@ == crate::error::ErrorV::Parse(
                    "invalid resource object"@,
                ),
            },
    {
        match parse_object(text) {
            Some(e) => match resource_from_entries(&e) {
                Some(res) => Ok(res),
                None => Err(Error::Parse(String::from_str("invalid resource object"))),
            },
            None => Err(Error::Parse(String::from_str("invalid resource object"))),
        }
    }

    /// The string value of field `key`, where it has one.
    pub fn field_str(&self, key: &str) -> (r: Option<String>)
        ensures
            match r {
                Some(s) => lookup(self@.fields, key@) is Some && string_of(
                    lookup(self@.fields, key@).unwrap(),
                ) == Some(s@),
                None => lookup(self@.fields, key@) is None || string_of(
                    lookup(self@.fields, key@).unwrap(),
                ) is None,
            },
    {
        match find(&self.fields, key) {
            Some(v) => parse_string(v.as_str()),
            None => None,
        }
    }

    /// An equal resource, held apart from this one.
    pub fn copy(&self) -> (r: Resource)
        ensures
            r@ == self@,
    {
        Resource {
            gid: self.gid.clone(),
            resource_type: copy_opt(&self.resource_type),
            fields: copy_entries(&self.fields),
        }
    }

    /// The object entries that this resource is written as.
    pub fn to_entries(&self) -> (r: Vec<(String, String)>)
        ensures
            entries_view(r@) == entries_of_resource(self@),
    {
        let mut r: Vec<(String, String)> = Vec::new();
        r.push((String::from_str("gid"), quote(self.gid.as_str())));
        let tag = match &self.resource_type {
            Some(t) => quote(t.as_str()),
            None => String::from_str("null"),
        };
        r.push((String::from_str("resource_type"), tag));
        let mut i: usize = 0;
        while i < self.fields.len()
            invariant
                i <= self.fields.len(),
                entries_view(r@) == seq![("gid"@, quoted_of(self.gid@)), ("resource_type"@, tag_text(opt_view(self.resource_type)))] + entries_view(self.fields@.take(i as int)),
            decreases self.fields.len() - i,
        {
            let ghost r0 = r@;
            r.push((self.fields[i].0.clone(), self.fields[i].1.clone()));
            let ghost x = (self.fields@[i as int].0@, self.fields@[i as int].1@);
            assert(self.fields@.take(i + 1) =~= self.fields@.take(i as int).push(self.fields@[i as int]));
            assert(entries_view(r@) =~= entries_view(r0).push(x));
            assert(entries_view(self.fields@.take(i + 1)) =~= entries_view(self.fields@.take(i as int)).push(x));
            i = i + 1;
        }
        assert(self.fields@.take(self.fields.len() as int) =~= self.fields@);
        r
    }

    /// The JSON text of this resource.
    pub fn to_json_text(&self) -> (r: String)
        ensures
            r@ == object_text(entries_of_resource(self@)),
    {
        entries_text(&self.to_entries())
    }
}

/// The JSON text of an object with the given entries.
pub fn entries_text(e: &Vec<(String, String)>) -> (r: String)
    ensures
        r@ == object_text(entries_view(e@)),
{
    if e.len() == 0 {
        return String::from_str("{}");
    }
    let mut s = String::from_str("{");
    let mut i: usize = 0;
    while i < e.len()
        invariant
            0 < e.len(),
            i <= e.len(),
            i == 0 ==> s@ == "{"@,
            i > 0 ==> s@ == "{"@ + members_text(entries_view(e@).take(i as int)),
        decreases e.len() - i,
    {
        let ghost ev = entries_view(e@);
        let ghost t = ev.take(i + 1);
        assert(t.take(i as int) =~= ev.take(i as int));
        if i > 0 {
            s.append(",");
        }
        let k = quote(e[i].0.as_str());
        s.append(k.as_str());
        s.append(":");
        s.append(e[i].1.as_str());
        if i == 0 {
            assert(s@ =~= "{"@ + members_text(t));
        } else {
            assert(s@ =~= "{"@ + members_text(t));
        }
        i = i + 1;
    }
    assert(entries_view(e@).take(e.len() as int) =~= entries_view(e@));
    s.append("}");
    s
}

} // verus!
