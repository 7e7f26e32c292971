use vstd::prelude::*;
use vstd::string::*;

use crate::dao::{first_with_email, opt_record, records_of};
use crate::entity::{AccountEntity, AccountRecord};
use crate::json::{append_quoted, quoted};

verus! {

/// A query filter of the remote state store.
pub enum Filter {
    /// Every record.
    All,
    /// The records whose field (first) equals the value (second).
    Equals(String, String),
    /// The records that every filter of the list selects.
    And(Vec<Filter>),
}

/// The JSON text of a filter.
pub open spec fn filter_json(f: Filter) -> Seq<char>
    decreases f, 0nat,
{
    match f {
        Filter::All => "{}"@,
        Filter::Equals(field, value) => "{\"EQ\":{"@ + quoted(field@) + ":"@ + quoted(value@) + "}}"@,
        Filter::And(fs) => "{\"AND\":["@ + filters_json(fs, fs@.len()) + "]}"@,
    }
}

/// The JSON texts of the first `n` filters of `fs`, separated by commas.
pub open spec fn filters_json(fs: Vec<Filter>, n: nat) -> Seq<char>
    decreases fs, n,
{
    if n == 0 || n > fs@.len() {
        Seq::empty()
    } else if n == 1 {
        filter_json(fs@[0])
    } else {
        filters_json(fs, (n - 1) as nat) + ","@ + filter_json(fs@[n - 1])
    }
}

impl Filter {
    /// Appends the JSON text of this filter to `out`.
    pub fn append_json(&self, out: &mut String)
        ensures
            final(out)@ == old(out)@ + filter_json(*self),
        decreases self,
    {
        match self {
            Filter::All => {
                out.append("{}");
            },
            Filter::Equals(field, value) => {
                out.append("{\"EQ\":{");
                append_quoted(out, field.as_str());
                out.append(":");
                append_quoted(out, value.as_str());
                out.append("}}");
            },
            Filter::And(fs) => {
                out.append("{\"AND\":[");
                let ghost start = out@;
                let mut i: usize = 0;
                while i < fs.len()
                    invariant
                        *self == Filter::And(*fs),
                        i <= fs@.len(),
                        out@ == start + filters_json(*fs, i as nat),
                    decreases fs@.len() - i,
                {
                    if i > 0 {
                        out.append(",");
                    }
                    proof {
                        assert(decreases_to!(*self => self->And_0));
                        assert(decreases_to!(self->And_0 => self->And_0@));
                        assert(decreases_to!(self->And_0@ => fs@[i as int]));
                    }
                    fs[i].append_json(out);
                    i = i + 1;
                }
                out.append("]}");
            },
        }
    }

    /// The JSON text of this filter.
    pub fn to_json(&self) -> (r: String)
        ensures
            r@ == filter_json(*self),
    {
        let mut out = String::new();
        self.append_json(&mut out);
        assert(out@ =~= filter_json(*self));
        out
    }
}

/// A configured value, or `default` where none is configured.
pub open spec fn setting(configured: Option<String>, default: Seq<char>) -> Seq<char> {
    match configured {
        Some(v) => v@,
        None => default,
    }
}

/// The key/value endpoint of store `store` behind the sidecar on `port`.
pub open spec fn state_url(port: Seq<char>, store: Seq<char>) -> Seq<char> {
    "http://localhost:"@ + port + "/v1.0/state/"@ + store
}

/// The query endpoint of store `store` behind the sidecar on `port`.
pub open spec fn query_url(port: Seq<char>, store: Seq<char>) -> Seq<char> {
    "http://localhost:"@ + port + "/v1.0-alpha1/state/"@ + store + "/query"@
}

/// The body of a query request.
pub open spec fn query_json(f: Filter) -> Seq<char> {
    "{\"filter\":"@ + filter_json(f) + "}"@
}

/// The JSON object of a record, its keys in lexical order.
pub open spec fn entity_json(r: AccountRecord) -> Seq<char> {
    "{\"email\":"@ + quoted(r.email) + ",\"id\":"@ + quoted(r.id) + ",\"name\":"@ + quoted(r.name)
        + ",\"password\":"@ + quoted(r.password) + "}"@
}

/// The body of a request that writes one record under its id.
pub open spec fn save_json(r: AccountRecord) -> Seq<char> {
    "[{\"key\":"@ + quoted(r.id) + ",\"value\":"@ + entity_json(r) + "}]"@
}

/// The sidecar port: the configured one, else 3500.
pub fn get_sidecar_port(configured: Option<String>) -> (r: String)
    ensures
        r@ == setting(configured, "3500"@),
{
    match configured {
        Some(val) => val,
        None => String::from_str("3500"),
    }
}

/// The state store's name: the configured one, else `account-db`.
pub fn get_state_store_name(configured: Option<String>) -> (r: String)
    ensures
        r@ == setting(configured, "account-db"@),
{
    match configured {
        Some(val) => val,
        None => String::from_str("account-db"),
    }
}

/// The framing of requests to a remote state store reached through a
/// sidecar on `localhost`: endpoints, request bodies, and the reading of
/// query results. Sending the requests is left to the caller.
pub struct DaprAccountDao {
    pub port: String,
    pub store_name: String,
}

impl DaprAccountDao {
    /// The framing for the default sidecar port and store.
    pub fn new() -> (r: Self)
        ensures
            r.port@ == "3500"@,
            r.store_name@ == "account-db"@,
    {
        DaprAccountDao { port: get_sidecar_port(None), store_name: get_state_store_name(None) }
    }

    /// The framing for a configured port and store, each defaulted if absent.
    pub fn from_config(port: Option<String>, store_name: Option<String>) -> (r: Self)
        ensures
            r.port@ == setting(port, "3500"@),
            r.store_name@ == setting(store_name, "account-db"@),
    {
        DaprAccountDao { port: get_sidecar_port(port), store_name: get_state_store_name(store_name) }
    }

    /// The key/value endpoint.
    pub fn get_sidecar_url(&self) -> (r: String)
        ensures
            r@ == state_url(self.port@, self.store_name@),
    {
        let mut url = String::from_str("http://localhost:");
        url.append(self.port.as_str());
        url.append("/v1.0/state/");
        url.append(self.store_name.as_str());
        url
    }

    /// The query endpoint.
    pub fn get_sidecar_query_url(&self) -> (r: String)
        ensures
            r@ == query_url(self.port@, self.store_name@),
    {
        let mut url = String::from_str("http://localhost:");
        url.append(self.port.as_str());
        url.append("/v1.0-alpha1/state/");
        url.append(self.store_name.as_str());
        url.append("/query");
        url
    }

    /// The endpoint of the record stored under `id`.
    pub fn record_url(&self, id: &String) -> (r: String)
        ensures
            r@ == state_url(self.port@, self.store_name@) + "/"@ + id@,
    {
        let mut url = self.get_sidecar_url();
        url.append("/");
        url.append(id.as_str());
        url
    }

    /// The filter that selects the records whose email is `email`.
    pub fn email_filter(email: String) -> (r: Filter)
        ensures
            r matches Filter::Equals(field, value) && field@ == "email"@ && value@ == email@,
    {
        Filter::Equals(String::from_str("email"), email)
    }

    /// The body of a query request for `filter`.
    pub fn query_body(filter: &Filter) -> (r: String)
        ensures
            r@ == query_json(*filter),
    {
        let mut body = String::from_str("{\"filter\":");
        filter.append_json(&mut body);
        body.append("}");
        body
    }

    /// The body of a request that writes `account` under its id.
    pub fn save_body(account: &AccountEntity) -> (r: String)
        ensures
            r@ == save_json(account@),
    {
        let mut body = String::from_str("[{\"key\":");
        append_quoted(&mut body, account.id.as_str());
        body.append(",\"value\":{\"email\":");
        append_quoted(&mut body, account.email.as_str());
        body.append(",\"id\":");
        append_quoted(&mut body, account.id.as_str());
        body.append(",\"name\":");
        append_quoted(&mut body, account.name.as_str());
        body.append(",\"password\":");
        append_quoted(&mut body, account.password.as_str());
        body.append("}}]");
        proof {
            reveal_strlit(",\"value\":{\"email\":");
            reveal_strlit(",\"value\":");
            reveal_strlit("{\"email\":");
            reveal_strlit("}}]");
            reveal_strlit("}");
            reveal_strlit("}]");
        }
        assert(body@ =~= save_json(account@));
        body
    }

    /// The records of a query answer; none where the answer could not be read.
    pub fn results_or_empty(parsed: Option<Vec<AccountEntity>>) -> (r: Vec<AccountEntity>)
        ensures
            r@ == match parsed {
                Some(v) => v@,
                None => Seq::<AccountEntity>::empty(),
            },
    {
        match parsed {
            Some(v) => v,
            None => Vec::new(),
        }
    }

    /// The first record of `v` whose email is `email`.
    fn first_in(v: &Vec<AccountEntity>, email: &String) -> (r: Option<AccountEntity>)
        ensures
            opt_record(r) == first_with_email(records_of(v@), email@),
    {
        let ghost listed = records_of(v@);
        let ghost n = listed.len() as int;
        assert(listed.subrange(0, n) =~= listed);
        let mut i: usize = 0;
        while i < v.len()
            invariant
                listed == records_of(v@),
                n == v@.len(),
                i <= n,
                first_with_email(listed, email@) == first_with_email(
                    listed.subrange(i as int, n),
                    email@,
                ),
            decreases v@.len() - i,
        {
            let ghost rest = listed.subrange(i as int, n);
            assert(rest[0] == v@[i as int]@);
            if v[i].email == *email {
                assert(first_with_email(rest, email@) == Some(rest[0]));
                let found = v[i].clone();
                return Some(found);
            }
            assert(rest.drop_first() =~= listed.subrange(i + 1, n));
            i = i + 1;
        }
        None
    }

    /// The first record of a query answer whose email is `email`; none
    /// where the answer could not be read or holds no such record.
    pub fn first_match(parsed: Option<Vec<AccountEntity>>, email: &String) -> (r: Option<AccountEntity>)
        ensures
            opt_record(r) == match parsed {
                Some(v) => first_with_email(records_of(v@), email@),
                None => None::<AccountRecord>,
            },
    {
        match parsed {
            Some(v) => Self::first_in(&v, email),
            None => None,
        }
    }

    /// The record of a fetch by `id`, if it could be read and carries that id.
    pub fn record_for_id(parsed: Option<AccountEntity>, id: &String) -> (r: Option<AccountEntity>)
        ensures
            r == match parsed {
                Some(e) => if e@.id == id@ {
                    Some(e)
                } else {
                    None
                },
                None => None::<AccountEntity>,
            },
    {
        match parsed {
            Some(e) => {
                if e.id == *id {
                    Some(e)
                } else {
                    None
                }
            },
            None => None,
        }
    }
}

} // verus!
