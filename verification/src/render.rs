//! Claims written out as JSON, indented, as `whoami` prints them.

use crate::claims::ClaimValue;
use crate::claims::ClaimValueView;
use crate::claims::Claims;
use crate::claims::ClaimsView;
use crate::decode::key_email;
use crate::decode::key_exp;
use crate::decode::key_login_kubernetes;
use crate::decode::key_org;
use crate::decode::key_orgs;
use crate::decode::key_permissions;
use crate::decode::key_roles;
use crate::decode::key_scope;
use crate::json::json_text;
use crate::json::quote;
use crate::messages::value_text;
use crate::openid::UserInfo;
use crate::openid::UserInfoView;
use crate::string_map::Entries;
use crate::string_map::StringMap;
use crate::text::concat;
use crate::text::join;
use crate::text::joined;
use crate::text::signed_decimal;
use crate::text::signed_decimal_text;
use vstd::prelude::*;

verus! {

/// One member of the outer object: the name, a colon and the value,
/// indented by one step.
pub open spec fn member(key: Seq<char>, value: Seq<char>) -> Seq<char> {
    "  "@ + json_text(key) + ": "@ + value
}

/// The items of a list, each on a line of its own, indented by two steps.
pub open spec fn item_lines(items: Seq<Seq<char>>) -> Seq<Seq<char>> {
    Seq::new(items.len(), |i: int| "    "@ + json_text(items[i]))
}

/// The entries of a map, each on a line of its own, indented by two steps.
pub open spec fn entry_lines(entries: Entries) -> Seq<Seq<char>> {
    Seq::new(
        entries.len(),
        |i: int| "    "@ + json_text(entries[i].0) + ": "@ + json_text(entries[i].1),
    )
}

/// A list of texts as a member value.
pub open spec fn json_list(items: Seq<Seq<char>>) -> Seq<char> {
    if items.len() == 0 {
        "[]"@
    } else {
        "[\n"@ + joined(item_lines(items), ",\n"@) + "\n  ]"@
    }
}

/// A map of texts as a member value.
pub open spec fn json_table(entries: Entries) -> Seq<char> {
    if entries.len() == 0 {
        "{}"@
    } else {
        "{\n"@ + joined(entry_lines(entries), ",\n"@) + "\n  }"@
    }
}

/// The member for an optional value: none for a claim that is not there.
pub open spec fn optional_member(key: Seq<char>, value: Option<Seq<char>>) -> Seq<Seq<char>> {
    match value {
        Some(v) => seq![member(key, v)],
        None => Seq::empty(),
    }
}

/// The members of the claims that are there, in the order of the fields.
pub open spec fn claim_members(claims: ClaimsView) -> Seq<Seq<char>> {
    optional_member(
        key_exp(),
        match claims.exp {
            Some(n) => Some(signed_decimal_text(n as int)),
            None => None,
        },
    ) + optional_member(
        key_scope(),
        match claims.scope {
            Some(s) => Some(json_text(s)),
            None => None,
        },
    ) + optional_member(
        key_email(),
        match claims.email {
            Some(s) => Some(json_text(s)),
            None => None,
        },
    ) + optional_member(
        key_login_kubernetes(),
        match claims.login_kubernetes {
            Some(s) => Some(json_text(s)),
            None => None,
        },
    ) + optional_member(
        key_orgs(),
        match claims.orgs {
            Some(t) => Some(json_table(t)),
            None => None,
        },
    ) + optional_member(
        key_org(),
        match claims.org {
            Some(s) => Some(json_text(s)),
            None => None,
        },
    ) + optional_member(
        key_permissions(),
        match claims.permissions {
            Some(l) => Some(json_list(l)),
            None => None,
        },
    ) + optional_member(
        key_roles(),
        match claims.roles {
            Some(l) => Some(json_list(l)),
            None => None,
        },
    )
}

/// The claims as an indented JSON object. Claims that are not there are
/// left out.
pub open spec fn claims_json(claims: ClaimsView) -> Seq<char> {
    if claim_members(claims).len() == 0 {
        "{}"@
    } else {
        "{\n"@ + joined(claim_members(claims), ",\n"@) + "\n}"@
    }
}

fn write_member(key: &str, value: &str) -> (r: String)
    ensures
        r@ == member(key@, value@),
{
    let a = concat("  ", quote(key).as_str());
    let b = concat(a.as_str(), ": ");
    concat(b.as_str(), value)
}

fn write_list(items: &Vec<String>) -> (r: String)
    ensures
        r@ == json_list(items.deep_view()),
{
    if items.len() == 0 {
        return "[]".to_owned();
    }
    let mut lines: Vec<String> = Vec::new();
    let mut i: usize = 0;
    while i < items.len()
        invariant
            i <= items.len(),
            lines.deep_view() == item_lines(items.deep_view()).take(i as int),
        decreases items.len() - i,
    {
        let ghost before = lines.deep_view();
        let line = concat("    ", quote(items[i].as_str()).as_str());
        lines.push(line);
        assert(lines.deep_view() =~= before.push(line@));
        assert(lines.deep_view() =~= item_lines(items.deep_view()).take(i as int + 1));
        i = i + 1;
    }
    assert(lines.deep_view() =~= item_lines(items.deep_view()));
    let a = concat("[\n", join(&lines, ",\n").as_str());
    concat(a.as_str(), "\n  ]")
}

fn write_table(table: &StringMap) -> (r: String)
    ensures
        r@ == json_table(table@),
{
    if table.len() == 0 {
        return "{}".to_owned();
    }
    let mut lines: Vec<String> = Vec::new();
    let mut i: usize = 0;
    while i < table.len()
        invariant
            i <= table@.len(),
            lines.deep_view() == entry_lines(table@).take(i as int),
        decreases table@.len() - i,
    {
        let ghost before = lines.deep_view();
        let a = concat("    ", quote(table.key_at(i).as_str()).as_str());
        let b = concat(a.as_str(), ": ");
        let line = concat(b.as_str(), quote(table.value_at(i).as_str()).as_str());
        lines.push(line);
        assert(lines.deep_view() =~= before.push(line@));
        assert(lines.deep_view() =~= entry_lines(table@).take(i as int + 1));
        i = i + 1;
    }
    assert(lines.deep_view() =~= entry_lines(table@));
    let a = concat("{\n", join(&lines, ",\n").as_str());
    concat(a.as_str(), "\n  }")
}

fn push_text_member(members: &mut Vec<String>, key: &str, value: &Option<String>)
    ensures
        final(members).deep_view() == old(members).deep_view() + optional_member(
            key@,
            match value.deep_view() {
                Some(s) => Some(json_text(s)),
                None => None,
            },
        ),
{
    let ghost before = members.deep_view();
    match value {
        Some(v) => {
            let line = write_member(key, quote(v.as_str()).as_str());
            members.push(line);
            assert(members.deep_view() =~= before + seq![line@]);
        },
        None => {
            assert(members.deep_view() =~= before + Seq::<Seq<char>>::empty());
        },
    }
}

fn push_list_member(members: &mut Vec<String>, key: &str, value: &Option<Vec<String>>)
    ensures
        final(members).deep_view() == old(members).deep_view() + optional_member(
            key@,
            match value.deep_view() {
                Some(l) => Some(json_list(l)),
                None => None,
            },
        ),
{
    let ghost before = members.deep_view();
    match value {
        Some(v) => {
            let line = write_member(key, write_list(v).as_str());
            members.push(line);
            assert(members.deep_view() =~= before + seq![line@]);
        },
        None => {
            assert(members.deep_view() =~= before + Seq::<Seq<char>>::empty());
        },
    }
}

/// Writes the claims as an indented JSON object.
pub fn to_json(claims: &Claims) -> (r: String)
    ensures
        r@ == claims_json(claims@),
{
    let mut members: Vec<String> = Vec::new();
    assert(members.deep_view() =~= Seq::<Seq<char>>::empty());
    if let Some(exp) = claims.exp {
        let line = write_member("exp", signed_decimal(exp).as_str());
        members.push(line);
        assert(members.deep_view() =~= seq![line@]);
    }
    let ghost m1 = members.deep_view();
    assert(m1 =~= optional_member(
        key_exp(),
        match claims@.exp {
            Some(n) => Some(signed_decimal_text(n as int)),
            None => None,
        },
    ));
    push_text_member(&mut members, "scope", &claims.scope);
    push_text_member(&mut members, "email", &claims.email);
    push_text_member(
        &mut members,
        "https://p6m.dev/v1/permission/login/kubernetes",
        &claims.login_kubernetes,
    );
    let ghost m4 = members.deep_view();
    if let Some(orgs) = &claims.orgs {
        let line = write_member("https://p6m.dev/v1/orgs", write_table(orgs).as_str());
        members.push(line);
        assert(members.deep_view() =~= m4 + seq![line@]);
    } else {
        assert(members.deep_view() =~= m4 + Seq::<Seq<char>>::empty());
    }
    push_text_member(&mut members, "https://p6m.dev/v1/org", &claims.org);
    push_list_member(&mut members, "https://p6m.dev/v1/permission", &claims.permissions);
    push_list_member(&mut members, "https://p6m.dev/v1/roles", &claims.roles);
    assert(members.deep_view() == claim_members(claims@));
    if members.len() == 0 {
        return "{}".to_owned();
    }
    let a = concat("{\n", join(&members, ",\n").as_str());
    concat(a.as_str(), "\n}")
}

/// The members of what the provider tells of an identity, in the order
/// of the fields.
pub open spec fn user_info_members(info: UserInfoView) -> Seq<Seq<char>> {
    optional_member(
        "name"@,
        match info.name {
            Some(s) => Some(json_text(s)),
            None => None,
        },
    ) + optional_member(
        "email"@,
        match info.email {
            Some(s) => Some(json_text(s)),
            None => None,
        },
    ) + optional_member(
        "https://p6m.dev/v1/email"@,
        match info.p6m_email {
            Some(s) => Some(json_text(s)),
            None => None,
        },
    ) + optional_member(
        "https://p6m.dev/v1/org"@,
        match info.org {
            Some(s) => Some(json_text(s)),
            None => None,
        },
    )
}

/// What the provider tells of an identity as an indented JSON object.
pub open spec fn user_info_json(info: UserInfoView) -> Seq<char> {
    if user_info_members(info).len() == 0 {
        "{}"@
    } else {
        "{\n"@ + joined(user_info_members(info), ",\n"@) + "\n}"@
    }
}

impl UserInfo {
    /// Writes what the provider tells of an identity as an indented JSON
    /// object.
    pub fn to_json(&self) -> (r: String)
        ensures
            r@ == user_info_json(self@),
    {
        let mut members: Vec<String> = Vec::new();
        assert(members.deep_view() =~= Seq::<Seq<char>>::empty());
        push_text_member(&mut members, "name", &self.name);
        push_text_member(&mut members, "email", &self.email);
        push_text_member(&mut members, "https://p6m.dev/v1/email", &self.p6m_email);
        push_text_member(&mut members, "https://p6m.dev/v1/org", &self.org);
        assert(members.deep_view() =~= user_info_members(self@));
        if members.len() == 0 {
            return "{}".to_owned();
        }
        let a = concat("{\n", join(&members, ",\n").as_str());
        concat(a.as_str(), "\n}")
    }
}

/// One member on a line with others: the name, a colon and the value.
pub open spec fn inline_member(key: Seq<char>, value: Option<Seq<char>>) -> Seq<Seq<char>> {
    match value {
        Some(v) => seq![json_text(key) + ":"@ + v],
        None => Seq::empty(),
    }
}

/// The members of the claims that are there, for one line.
pub open spec fn inline_members(claims: ClaimsView) -> Seq<Seq<char>> {
    inline_member(
        key_exp(),
        match claims.exp {
            Some(n) => Some(value_text(ClaimValueView::Number(n))),
            None => None,
        },
    ) + inline_member(
        key_scope(),
        match claims.scope {
            Some(s) => Some(value_text(ClaimValueView::Text(s))),
            None => None,
        },
    ) + inline_member(
        key_email(),
        match claims.email {
            Some(s) => Some(value_text(ClaimValueView::Text(s))),
            None => None,
        },
    ) + inline_member(
        key_login_kubernetes(),
        match claims.login_kubernetes {
            Some(s) => Some(value_text(ClaimValueView::Text(s))),
            None => None,
        },
    ) + inline_member(
        key_orgs(),
        match claims.orgs {
            Some(t) => Some(value_text(ClaimValueView::Table(t))),
            None => None,
        },
    ) + inline_member(
        key_org(),
        match claims.org {
            Some(s) => Some(value_text(ClaimValueView::Text(s))),
            None => None,
        },
    ) + inline_member(
        key_permissions(),
        match claims.permissions {
            Some(l) => Some(value_text(ClaimValueView::List(l))),
            None => None,
        },
    ) + inline_member(
        key_roles(),
        match claims.roles {
            Some(l) => Some(value_text(ClaimValueView::List(l))),
            None => None,
        },
    )
}

/// The claims as JSON on one line. Claims that are not there are left out.
pub open spec fn claims_line(claims: ClaimsView) -> Seq<char> {
    "{"@ + joined(inline_members(claims), ","@) + "}"@
}

fn push_inline(members: &mut Vec<String>, key: &str, value: Option<ClaimValue>)
    ensures
        final(members).deep_view() == old(members).deep_view() + inline_member(
            key@,
            match value {
                Some(v) => Some(value_text(v@)),
                None => None,
            },
        ),
{
    let ghost before = members.deep_view();
    match value {
        Some(v) => {
            let head = concat(quote(key).as_str(), ":");
            let line = concat(head.as_str(), v.to_string().as_str());
            members.push(line);
            assert(members.deep_view() =~= before + seq![line@]);
        },
        None => {
            assert(members.deep_view() =~= before + Seq::<Seq<char>>::empty());
        },
    }
}

fn text_value(text: &Option<String>) -> (r: Option<ClaimValue>)
    ensures
        match text.deep_view() {
            Some(s) => r matches Some(v) && v@ == ClaimValueView::Text(s),
            None => r is None,
        },
{
    match text {
        Some(s) => Some(ClaimValue::Text(s.clone())),
        None => None,
    }
}

fn list_value(list: &Option<Vec<String>>) -> (r: Option<ClaimValue>)
    ensures
        match list.deep_view() {
            Some(l) => r matches Some(v) && v@ == ClaimValueView::List(l),
            None => r is None,
        },
{
    match list {
        Some(l) => Some(ClaimValue::List(crate::text::copy_list(l))),
        None => None,
    }
}

impl Claims {
    /// The claims as JSON on one line.
    pub fn to_string(&self) -> (r: String)
        ensures
            r@ == claims_line(self@),
    {
        let mut members: Vec<String> = Vec::new();
        assert(members.deep_view() =~= Seq::<Seq<char>>::empty());
        push_inline(
            &mut members,
            "exp",
            match self.exp {
                Some(n) => Some(ClaimValue::Number(n)),
                None => None,
            },
        );
        push_inline(&mut members, "scope", text_value(&self.scope));
        push_inline(&mut members, "email", text_value(&self.email));
        push_inline(
            &mut members,
            "https://p6m.dev/v1/permission/login/kubernetes",
            text_value(&self.login_kubernetes),
        );
        push_inline(
            &mut members,
            "https://p6m.dev/v1/orgs",
            match &self.orgs {
                Some(t) => Some(ClaimValue::Table(t.clone())),
                None => None,
            },
        );
        push_inline(&mut members, "https://p6m.dev/v1/org", text_value(&self.org));
        push_inline(&mut members, "https://p6m.dev/v1/permission", list_value(&self.permissions));
        push_inline(&mut members, "https://p6m.dev/v1/roles", list_value(&self.roles));
        assert(members.deep_view() =~= inline_members(self@));
        let a = concat("{", join(&members, ",").as_str());
        concat(a.as_str(), "}")
    }
}

} // verus!
