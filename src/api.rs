use vstd::prelude::*;

use crate::text::{decimal, push_decimal, push_signed_decimal, signed_decimal};

verus! {

/// The provider's endpoint for the domains of an account.
pub open spec fn domains_base() -> Seq<char> {
    "https://api.digitalocean.com/v2/domains/"@
}

/// The text of an optional string.
pub open spec fn str_view(o: Option<&str>) -> Option<Seq<char>> {
    match o {
        Some(s) => Some(s@),
        None => None,
    }
}

/// The query parameters of a record listing, in order: page size, record type
/// and name, each only when given.
pub open spec fn list_params(
    per_page: Option<u16>,
    kind: Option<Seq<char>>,
    name: Option<Seq<char>>,
) -> Seq<Seq<char>> {
    let a = match per_page {
        Some(n) => seq!["per_page="@ + decimal(n as nat)],
        None => Seq::empty(),
    };
    let b = match kind {
        Some(k) => seq!["type="@ + k],
        None => Seq::empty(),
    };
    let c = match name {
        Some(x) => seq!["name="@ + x],
        None => Seq::empty(),
    };
    a + b + c
}

/// Query parameters joined by `&`.
pub open spec fn join_params(p: Seq<Seq<char>>) -> Seq<char>
    decreases p.len(),
{
    if p.len() == 0 {
        Seq::empty()
    } else if p.len() == 1 {
        p[0]
    } else {
        join_params(p.drop_last()) + "&"@ + p.last()
    }
}

/// The address of a domain's record listing, with its query if any.
pub open spec fn list_url(
    domain: Seq<char>,
    per_page: Option<u16>,
    kind: Option<Seq<char>>,
    name: Option<Seq<char>>,
) -> Seq<char> {
    let q = list_params(per_page, kind, name);
    domains_base() + domain + "/records"@ + if q.len() == 0 {
        Seq::empty()
    } else {
        "?"@ + join_params(q)
    }
}

/// The address of a domain's record listing. Parameters that are given are
/// added to the query, in order, joined by `&`.
pub fn records_url(domain: &str, per_page: Option<u16>, kind: Option<&str>, name: Option<&str>) -> (r:
    String)
    ensures
        r@ == list_url(domain@, per_page, str_view(kind), str_view(name)),
{
    let mut params: Vec<String> = Vec::new();
    if let Some(n) = per_page {
        let mut p = "per_page=".to_string();
        push_decimal(&mut p, n as u64);
        params.push(p);
    }
    if let Some(k) = kind {
        let mut p = "type=".to_string();
        p.append(k);
        params.push(p);
    }
    if let Some(x) = name {
        let mut p = "name=".to_string();
        p.append(x);
        params.push(p);
    }
    let ghost q = list_params(per_page, str_view(kind), str_view(name));
    assert(params@.map_values(|s: String| s@) =~= q);
    let mut url = "https://api.digitalocean.com/v2/domains/".to_string();
    url.append(domain);
    url.append("/records");
    let ghost start = url@;
    if params.len() > 0 {
        url.append("?");
        let ghost head = url@;
        let mut i: usize = 0;
        while i < params.len()
            invariant
                0 < params@.len(),
                i <= params@.len(),
                params@.map_values(|s: String| s@) == q,
                url@ == head + join_params(q.take(i as int)),
            decreases params@.len() - i,
        {
            proof {
                assert(q.take(i + 1).drop_last() =~= q.take(i as int));
            }
            if i > 0 {
                url.append("&");
            }
            url.append(params[i].as_str());
            i = i + 1;
            proof {
                assert(q.take(i as int)[i - 1] == q[i - 1]);
                if i == 1 {
                    assert(q.take(1) =~= seq![q[0]]);
                }
            }
        }
        assert(q.take(params@.len() as int) =~= q);
    }
    url
}

/// The address of one record of a domain.
pub fn record_url(domain: &str, id: i64) -> (r: String)
    ensures
        r@ == domains_base() + domain@ + "/records/"@ + signed_decimal(id as int),
{
    let mut url = "https://api.digitalocean.com/v2/domains/".to_string();
    url.append(domain);
    url.append("/records/");
    push_signed_decimal(&mut url, id);
    url
}

/// The address to which new records of a domain are posted.
pub fn create_url(domain: &str) -> (r: String)
    ensures
        r@ == domains_base() + domain@ + "/records/"@,
{
    let mut url = "https://api.digitalocean.com/v2/domains/".to_string();
    url.append(domain);
    url.append("/records/");
    url
}

/// The name by which the provider's listing is filtered: the domain itself for
/// the apex label `@`, else the subdomain qualified by the domain.
pub open spec fn qualified_name(subdomain: Seq<char>, domain: Seq<char>) -> Seq<char> {
    if subdomain == seq!['@'] {
        domain
    } else {
        subdomain + "."@ + domain
    }
}

/// The name by which the provider's listing is filtered.
pub fn name_filter(subdomain: &str, domain: &str) -> (r: String)
    ensures
        r@ == qualified_name(subdomain@, domain@),
{
    if subdomain.unicode_len() == 1 && subdomain.get_char(0) == '@' {
        assert(subdomain@ =~= seq!['@']);
        domain.to_string()
    } else {
        let mut r = subdomain.to_string();
        r.append(".");
        r.append(domain);
        r
    }
}

/// An error that the provider reported in its reply.
#[derive(Debug)]
pub struct ApiError {
    pub id: String,
    pub message: String,
}

impl ApiError {
    /// The error as text: its id, then its message.
    pub fn describe(&self) -> (r: String)
        ensures
            r@ == self.id@ + ": "@ + self.message@,
    {
        let mut r = self.id.clone();
        r.append(": ");
        r.append(self.message.as_str());
        r
    }
}

/// A decoded reply of the provider: what was asked for, or an error.
#[derive(Debug)]
pub enum Reply<T> {
    Success(T),
    Failure(ApiError),
}

impl<T> Reply<T> {
    /// The reply as a result.
    pub fn into_result(self) -> (r: Result<T, ApiError>)
        ensures
            self is Success <==> r is Ok,
            self is Success ==> r->Ok_0 == self->Success_0,
            self is Failure ==> r->Err_0 == self->Failure_0,
    {
        match self {
            Reply::Success(v) => Ok(v),
            Reply::Failure(e) => Err(e),
        }
    }
}

} // verus!
