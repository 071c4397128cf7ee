use vstd::prelude::*;

use std::collections::HashMap;

use crate::chain::{leak_box, Chain, ChainId};
use crate::digits::{parse_unsigned, parse_unsigned_exec, IntParseError};
use crate::text::chars_of;
use crate::target_endpoint::{
    classify_endpoint, parse_url, url_parse_result, HttpTargetEndpoint, InitTargetEndpointError,
    TargetEndpoint, TargetEndpointBase, WebSocketTargetEndpoint, EndpointUrl, is_http_scheme,
    is_web_socket_scheme, string_is,
};

verus! {

broadcast use {
    vstd::std_specs::hash::group_hash_axioms,
    vstd::hash_map::group_hash_map_axioms,
};

/// The target endpoints of one chain, sorted by transport.
#[derive(Debug, PartialEq, Eq)]
pub struct TargetEndpointsForChain {
    pub chain: &'static Chain,
    pub http: Vec<HttpTargetEndpoint>,
    pub web_socket: Vec<WebSocketTargetEndpoint>,
}

impl TargetEndpointsForChain {
    /// No endpoints yet for `chain`.
    pub fn new(chain: &'static Chain) -> (r: Self)
        ensures
            r.chain == chain,
            r.http@ == Seq::<HttpTargetEndpoint>::empty(),
            r.web_socket@ == Seq::<WebSocketTargetEndpoint>::empty(),
    {
        TargetEndpointsForChain { chain, http: Vec::new(), web_socket: Vec::new() }
    }

    /// Appends an endpoint to the list of its transport.
    pub fn add(&mut self, endpoint: TargetEndpoint)
        ensures
            final(self).chain == old(self).chain,
            match endpoint {
                TargetEndpoint::Http(e) => {
                    &&& final(self).http@ == old(self).http@.push(e)
                    &&& final(self).web_socket@ == old(self).web_socket@
                },
                TargetEndpoint::WebSocket(e) => {
                    &&& final(self).web_socket@ == old(self).web_socket@.push(e)
                    &&& final(self).http@ == old(self).http@
                },
            },
    {
        match endpoint {
            TargetEndpoint::Http(endpoint) => self.http.push(endpoint),
            TargetEndpoint::WebSocket(endpoint) => self.web_socket.push(endpoint),
        };
    }
}

/// The chain id an endpoint belongs to.
pub open spec fn endpoint_chain_id(e: TargetEndpoint) -> u64 {
    e.base_spec().chain.chain_id.0
}

/// Whether some endpoint of `s` belongs to chain `c`.
pub open spec fn has_chain(s: Seq<TargetEndpoint>, c: u64) -> bool {
    exists|j: int| 0 <= j < s.len() && endpoint_chain_id(#[trigger] s[j]) == c
}

/// The HTTP endpoints of chain `c` in `s`, in order.
pub open spec fn http_of(s: Seq<TargetEndpoint>, c: u64) -> Seq<HttpTargetEndpoint>
    decreases s.len(),
{
    if s.len() == 0 {
        seq![]
    } else {
        let rest = http_of(s.drop_last(), c);
        match s.last() {
            TargetEndpoint::Http(h) => if h.0.chain.chain_id.0 == c {
                rest.push(h)
            } else {
                rest
            },
            TargetEndpoint::WebSocket(_) => rest,
        }
    }
}

/// The WebSocket endpoints of chain `c` in `s`, in order.
pub open spec fn web_socket_of(s: Seq<TargetEndpoint>, c: u64) -> Seq<WebSocketTargetEndpoint>
    decreases s.len(),
{
    if s.len() == 0 {
        seq![]
    } else {
        let rest = web_socket_of(s.drop_last(), c);
        match s.last() {
            TargetEndpoint::WebSocket(w) => if w.0.chain.chain_id.0 == c {
                rest.push(w)
            } else {
                rest
            },
            TargetEndpoint::Http(_) => rest,
        }
    }
}

/// The chain of the first endpoint of `s` that belongs to chain `c`.
pub open spec fn first_chain(s: Seq<TargetEndpoint>, c: u64) -> &'static Chain
    decreases s.len(),
{
    if s.len() == 0 {
        arbitrary()
    } else if has_chain(s.drop_last(), c) {
        first_chain(s.drop_last(), c)
    } else {
        s.last().base_spec().chain
    }
}

/// The endpoints of each chain that has any, keyed by chain id.
#[derive(Debug, PartialEq, Eq)]
pub struct ChainsToEndpoints(pub HashMap<u64, TargetEndpointsForChain>);

/// `m` groups the endpoints `s` by chain: one entry per chain id that occurs, holding that
/// chain's HTTP and WebSocket endpoints in their order in `s`, and the chain of the first of them.
pub open spec fn groups_endpoints(m: Map<u64, TargetEndpointsForChain>, s: Seq<TargetEndpoint>) -> bool {
    &&& forall|c: u64| #[trigger] m.contains_key(c) <==> has_chain(s, c)
    &&& forall|c: u64|
        #[trigger] m.contains_key(c) ==> {
            &&& m[c].http@ == http_of(s, c)
            &&& m[c].web_socket@ == web_socket_of(s, c)
            &&& m[c].chain == first_chain(s, c)
        }
}

impl ChainsToEndpoints {
    /// Wraps a map from chain ids to their endpoints.
    pub fn new(inner: HashMap<u64, TargetEndpointsForChain>) -> (r: Self)
        ensures
            r.0@ == inner@,
    {
        Self(inner)
    }

    /// The endpoints of chain `chain_id`, if it has any.
    pub fn get(&self, chain_id: &ChainId) -> (r: Option<&TargetEndpointsForChain>)
        ensures
            match r {
                Some(g) => self.0@.contains_key(chain_id.0) && *g == self.0@[chain_id.0],
                None => !self.0@.contains_key(chain_id.0),
            },
    {
        self.0.get(&chain_id.0)
    }

    /// Groups endpoints by chain, keeping each chain's HTTP and WebSocket endpoints in order.
    pub fn from_endpoints(value: Vec<TargetEndpoint>) -> (r: Self)
        ensures
            groups_endpoints(r.0@, value@),
    {
        let ghost all = value@;
        let mut inner: HashMap<u64, TargetEndpointsForChain> = HashMap::new();
        let ghost mut done: Seq<TargetEndpoint> = seq![];
        for endpoint in it: value.into_iter()
            invariant
                it.seq() == all,
                done == all.take(it.index() as int),
                groups_endpoints(inner@, done),
        {
            let ghost before = done;
            let ghost old_map = inner@;
            let chain: &'static Chain = endpoint.base().chain;
            let key: u64 = chain.chain_id.0;
            proof {
                done = done.push(endpoint);
                assert(done.drop_last() =~= before);
                assert(endpoint_chain_id(endpoint) == key);
            }
            match inner.remove(&key) {
                Some(mut group) => {
                    group.add(endpoint);
                    inner.insert(key, group);
                },
                None => {
                    let mut group = TargetEndpointsForChain::new(chain);
                    proof {
                        lemma_no_chain_empty(before, key);
                    }
                    group.add(endpoint);
                    inner.insert(key, group);
                },
            }
            proof {
                assert forall|c: u64| #[trigger] inner@.contains_key(c) <==> has_chain(done, c) by {
                    if has_chain(done, c) {
                        let j = choose|j: int| 0 <= j < done.len() && endpoint_chain_id(#[trigger] done[j]) == c;
                        if j < before.len() {
                            assert(before[j] == done[j]);
                        }
                    }
                    if old_map.contains_key(c) {
                        let j = choose|j: int| 0 <= j < before.len() && endpoint_chain_id(#[trigger] before[j]) == c;
                        assert(done[j] == before[j]);
                    }
                    if c == key {
                        assert(done[before.len() as int] == endpoint);
                    }
                }
                assert forall|c: u64| #[trigger] inner@.contains_key(c) implies {
                    &&& inner@[c].http@ == http_of(done, c)
                    &&& inner@[c].web_socket@ == web_socket_of(done, c)
                    &&& inner@[c].chain == first_chain(done, c)
                } by {
                    assert(done.last() == endpoint);
                    if c != key {
                        assert(http_of(done, c) == http_of(before, c));
                        assert(web_socket_of(done, c) == web_socket_of(before, c));
                        assert(first_chain(done, c) == first_chain(before, c));
                    } else if old_map.contains_key(c) {
                        assert(has_chain(before, c));
                        assert(first_chain(done, c) == first_chain(before, c));
                    } else {
                        assert(!has_chain(before, c));
                        assert(http_of(before, c) =~= seq![]) by {
                            lemma_no_chain_empty(before, c);
                        }
                    }
                }
            }
        }
        proof {
            assert(done =~= all);
        }
        ChainsToEndpoints(inner)
    }
}

proof fn lemma_no_chain_empty(s: Seq<TargetEndpoint>, c: u64)
    requires
        !has_chain(s, c),
    ensures
        http_of(s, c) == Seq::<HttpTargetEndpoint>::empty(),
        web_socket_of(s, c) == Seq::<WebSocketTargetEndpoint>::empty(),
    decreases s.len(),
{
    if s.len() > 0 {
        assert(!has_chain(s.drop_last(), c)) by {
            if has_chain(s.drop_last(), c) {
                let j = choose|j: int| 0 <= j < s.drop_last().len() && endpoint_chain_id(#[trigger] s.drop_last()[j]) == c;
                assert(s[j] == s.drop_last()[j]);
            }
        }
        lemma_no_chain_empty(s.drop_last(), c);
        assert(endpoint_chain_id(s[s.len() - 1]) != c);
    }
}


/// The gateway's settings: the target endpoints of every configured chain.
#[derive(Debug, PartialEq, Eq)]
pub struct Settings {
    pub chains_to_targets: ChainsToEndpoints,
}

impl Settings {
    /// Settings with the given endpoints.
    pub fn new(chains_to_targets: ChainsToEndpoints) -> (r: Self)
        ensures
            r.chains_to_targets == chains_to_targets,
    {
        Self { chains_to_targets }
    }

    /// Keeps the settings alive for the rest of the program and hands out a shared reference.
    pub fn leak(self) -> (r: &'static Self)
        ensures
            *r == self,
    {
        leak_box(Box::new(self))
    }
}

#[verifier::external_type_specification]
#[verifier::external_body]
pub struct ExConfigError(config::ConfigError);

/// A chain as the settings file lists it.
#[derive(Debug, PartialEq, Eq, Structural, Clone, Copy)]
pub struct RawChain {
    pub chain_id: u64,
    pub block_time: Option<u64>,
}

/// A target endpoint as the settings file lists it.
#[derive(Debug, PartialEq, Eq)]
pub struct RawTargetEndpoint {
    pub name: String,
    pub chain_id: u64,
    pub url: String,
}

/// The settings file as read, before any URL is parsed or endpoint sorted.
#[derive(Debug, PartialEq, Eq)]
pub struct RawSettings {
    pub chains: Option<Vec<RawChain>>,
    pub target_endpoints: Vec<RawTargetEndpoint>,
}

/// Why the settings file could not be read into [`RawSettings`].
#[derive(Debug)]
pub enum RawSettingsError {
    /// The config crate could not load the file or find its sections.
    Config(config::ConfigError),
    /// A table lacks a field that is required.
    MissingField,
    /// A numeric field holds a value that is no unsigned 64-bit number.
    NotANumber,
    /// A text field holds a value with no text form (a table or an array).
    NotText,
}

/// Why raw settings could not become [`Settings`].
#[derive(Debug)]
pub enum SettingsError {
    NonExistentChain(ChainId),
    UrlParseError(url::ParseError),
    InitTargetEndpointError(InitTargetEndpointError),
}

/// A value of the settings file as the config crate reads it: its text form
/// (`config::Value::into_string`) and its number form (`config::Value::into_uint`), each where
/// it has one, and whether it is nil.
#[derive(Clone, Debug, PartialEq, Eq)]
pub struct SettingValue {
    pub text: Option<String>,
    pub number: Option<u64>,
    pub nil: bool,
}

/// A table of the settings file: its keys and their values.
pub type RawTable = Vec<(String, SettingValue)>;

/// The value of the first entry of `t` whose key is `key`.
pub open spec fn field(t: Seq<(String, SettingValue)>, key: Seq<char>) -> Option<SettingValue>
    decreases t.len(),
{
    if t.len() == 0 {
        None
    } else if t[0].0@ == key {
        Some(t[0].1)
    } else {
        field(t.drop_first(), key)
    }
}

/// An unsigned 64-bit number read from text as `str::parse::<u64>` reads it.
pub open spec fn parse_u64(s: Seq<char>) -> Result<u64, IntParseError> {
    match parse_unsigned(s, 10, u64::MAX as int) {
        Ok(n) => Ok(n as u64),
        Err(e) => Err(e),
    }
}

/// A required numeric field.
pub open spec fn required_number(t: Seq<(String, SettingValue)>, key: Seq<char>) -> Result<u64, RawSettingsError> {
    match field(t, key) {
        None => Err(RawSettingsError::MissingField),
        Some(v) => match v.number {
            Some(n) => Ok(n),
            None => Err(RawSettingsError::NotANumber),
        },
    }
}

/// A required text field.
pub open spec fn required_text(t: Seq<(String, SettingValue)>, key: Seq<char>) -> Result<String, RawSettingsError> {
    match field(t, key) {
        None => Err(RawSettingsError::MissingField),
        Some(v) => match v.text {
            Some(s) => Ok(s),
            None => Err(RawSettingsError::NotText),
        },
    }
}

/// An optional numeric field: absent or nil is none.
pub open spec fn optional_number(t: Seq<(String, SettingValue)>, key: Seq<char>) -> Result<Option<u64>, RawSettingsError> {
    match field(t, key) {
        None => Ok(None),
        Some(v) => if v.nil {
            Ok(None)
        } else {
            match v.number {
                Some(n) => Ok(Some(n)),
                None => Err(RawSettingsError::NotANumber),
            }
        },
    }
}

/// The chain a table of `chains` describes: `chain_id` is required, `block_time` optional.
pub open spec fn chain_of_table(t: Seq<(String, SettingValue)>) -> Result<RawChain, RawSettingsError> {
    match required_number(t, "chain_id"@) {
        Err(e) => Err(e),
        Ok(chain_id) => match optional_number(t, "block_time"@) {
            Err(e) => Err(e),
            Ok(block_time) => Ok(RawChain { chain_id, block_time }),
        },
    }
}

/// The chains of the tables, or the error of the first table that is not a chain.
pub open spec fn chains_of_tables(ts: Seq<Seq<(String, SettingValue)>>) -> Result<Seq<RawChain>, RawSettingsError>
    decreases ts.len(),
{
    if ts.len() == 0 {
        Ok(seq![])
    } else {
        match chains_of_tables(ts.drop_last()) {
            Err(e) => Err(e),
            Ok(v) => match chain_of_table(ts.last()) {
                Err(e) => Err(e),
                Ok(c) => Ok(v.push(c)),
            },
        }
    }
}

/// Whether a table of `target_endpoints` describes an endpoint: `name`, `chain_id` and
/// `url` are required, `name` and `url` have a text form and `chain_id` a number form.
/// Checked in that order.
pub open spec fn endpoint_table_check(t: Seq<(String, SettingValue)>) -> Result<u64, RawSettingsError> {
    match required_text(t, "name"@) {
        Err(e) => Err(e),
        Ok(_) => match required_number(t, "chain_id"@) {
            Err(e) => Err(e),
            Ok(c) => match required_text(t, "url"@) {
                Err(e) => Err(e),
                Ok(_) => Ok(c),
            },
        },
    }
}

/// The error of the first table that does not describe an endpoint, if any.
pub open spec fn endpoints_check(ts: Seq<Seq<(String, SettingValue)>>) -> Result<(), RawSettingsError>
    decreases ts.len(),
{
    if ts.len() == 0 {
        Ok(())
    } else {
        match endpoints_check(ts.drop_last()) {
            Err(e) => Err(e),
            Ok(_) => match endpoint_table_check(ts.last()) {
                Err(e) => Err(e),
                Ok(_) => Ok(()),
            },
        }
    }
}

/// The views of the tables of a section.
pub open spec fn tables_view(ts: Seq<Vec<(String, SettingValue)>>) -> Seq<Seq<(String, SettingValue)>> {
    ts.map_values(|t: Vec<(String, SettingValue)>| t@)
}

/// What reading the two sections gives: the first error in file order, else the raw settings.
pub open spec fn raw_settings_check(
    chains: Option<Seq<Seq<(String, SettingValue)>>>,
    endpoints: Seq<Seq<(String, SettingValue)>>,
) -> Result<(), RawSettingsError> {
    match chains {
        Some(cs) => match chains_of_tables(cs) {
            Err(e) => Err(e),
            Ok(_) => endpoints_check(endpoints),
        },
        None => endpoints_check(endpoints),
    }
}

/// The first entry of `t` with key `key`.
fn lookup_field<'a>(t: &'a Vec<(String, SettingValue)>, key: &str) -> (r: Option<&'a SettingValue>)
    ensures
        match r {
            Some(v) => field(t@, key@) == Some(*v),
            None => field(t@, key@) is None,
        },
{
    let mut i: usize = 0;
    assert(t@.skip(0) =~= t@);
    while i < t.len()
        invariant
            i <= t.len(),
            field(t@, key@) == field(t@.skip(i as int), key@),
        decreases t.len() - i,
    {
        assert(t@.skip(i as int)[0] == t@[i as int]);
        assert(t@.skip(i as int).drop_first() =~= t@.skip(i as int + 1));
        if string_is(&t[i].0, key) {
            return Some(&t[i].1);
        }
        i = i + 1;
    }
    assert(t@.skip(i as int) =~= Seq::<(String, SettingValue)>::empty());
    None
}

/// Reads an unsigned 64-bit decimal number (`str::parse::<u64>`).
pub fn parse_u64_exec(s: &str) -> (r: Result<u64, IntParseError>)
    ensures
        r == parse_u64(s@),
{
    let chars = chars_of(s);
    match parse_unsigned_exec(&chars, 10, u64::MAX as u128) {
        Ok(n) => Ok(n as u64),
        Err(e) => Err(e),
    }
}

fn required_number_exec(t: &Vec<(String, SettingValue)>, key: &str) -> (r: Result<u64, RawSettingsError>)
    ensures
        match r {
            Ok(n) => required_number(t@, key@) == Ok::<u64, RawSettingsError>(n),
            Err(e) => required_number(t@, key@) == Err::<u64, RawSettingsError>(e),
        },
{
    match lookup_field(t, key) {
        None => Err(RawSettingsError::MissingField),
        Some(v) => match v.number {
            Some(n) => Ok(n),
            None => Err(RawSettingsError::NotANumber),
        },
    }
}

fn required_text_exec(t: &Vec<(String, SettingValue)>, key: &str) -> (r: Result<String, RawSettingsError>)
    ensures
        match r {
            Ok(s) => required_text(t@, key@) matches Ok(x) && x@ == s@,
            Err(e) => required_text(t@, key@) == Err::<String, RawSettingsError>(e),
        },
{
    match lookup_field(t, key) {
        None => Err(RawSettingsError::MissingField),
        Some(v) => match &v.text {
            Some(s) => Ok(s.clone()),
            None => Err(RawSettingsError::NotText),
        },
    }
}

fn optional_number_exec(t: &Vec<(String, SettingValue)>, key: &str) -> (r: Result<Option<u64>, RawSettingsError>)
    ensures
        match r {
            Ok(n) => optional_number(t@, key@) == Ok::<Option<u64>, RawSettingsError>(n),
            Err(e) => optional_number(t@, key@) == Err::<Option<u64>, RawSettingsError>(e),
        },
{
    match lookup_field(t, key) {
        None => Ok(None),
        Some(v) => if v.nil {
            Ok(None)
        } else {
            match v.number {
                Some(n) => Ok(Some(n)),
                None => Err(RawSettingsError::NotANumber),
            }
        },
    }
}


/// Once the chains of a prefix fail, the chains of the whole sequence fail with the same error.
proof fn lemma_chains_error_extends(ts: Seq<Seq<(String, SettingValue)>>, k: int)
    requires
        0 <= k <= ts.len(),
        chains_of_tables(ts.take(k)) is Err,
    ensures
        chains_of_tables(ts) == chains_of_tables(ts.take(k)),
    decreases ts.len() - k,
{
    if k < ts.len() {
        assert(ts.take(k + 1).drop_last() =~= ts.take(k));
        lemma_chains_error_extends(ts, k + 1);
    } else {
        assert(ts.take(k) =~= ts);
    }
}

/// Once the endpoints of a prefix fail, the endpoints of the whole sequence fail with the same error.
proof fn lemma_endpoints_error_extends(ts: Seq<Seq<(String, SettingValue)>>, k: int)
    requires
        0 <= k <= ts.len(),
        endpoints_check(ts.take(k)) is Err,
    ensures
        endpoints_check(ts) == endpoints_check(ts.take(k)),
    decreases ts.len() - k,
{
    if k < ts.len() {
        assert(ts.take(k + 1).drop_last() =~= ts.take(k));
        lemma_endpoints_error_extends(ts, k + 1);
    } else {
        assert(ts.take(k) =~= ts);
    }
}

/// Whether a raw endpoint holds what its table says.
pub open spec fn endpoint_matches_table(e: RawTargetEndpoint, t: Seq<(String, SettingValue)>) -> bool {
    &&& endpoint_table_check(t) == Ok::<u64, RawSettingsError>(e.chain_id)
    &&& required_text(t, "name"@) matches Ok(name) && name@ == e.name@
    &&& required_text(t, "url"@) matches Ok(url) && url@ == e.url@
}

impl RawChain {
    /// The chain a table describes.
    pub fn from_table(t: &Vec<(String, SettingValue)>) -> (r: Result<RawChain, RawSettingsError>)
        ensures
            r == chain_of_table(t@),
    {
        let chain_id = match required_number_exec(t, "chain_id") {
            Ok(n) => n,
            Err(e) => return Err(e),
        };
        let block_time = match optional_number_exec(t, "block_time") {
            Ok(n) => n,
            Err(e) => return Err(e),
        };
        Ok(RawChain { chain_id, block_time })
    }
}

impl RawTargetEndpoint {
    /// The endpoint a table describes.
    pub fn from_table(t: &Vec<(String, SettingValue)>) -> (r: Result<RawTargetEndpoint, RawSettingsError>)
        ensures
            match r {
                Ok(e) => endpoint_matches_table(e, t@),
                Err(x) => endpoint_table_check(t@) == Err::<u64, RawSettingsError>(x),
            },
    {
        let name = match required_text_exec(t, "name") {
            Ok(n) => n,
            Err(e) => return Err(e),
        };
        let chain_id = match required_number_exec(t, "chain_id") {
            Ok(n) => n,
            Err(e) => return Err(e),
        };
        let url = match required_text_exec(t, "url") {
            Ok(u) => u,
            Err(e) => return Err(e),
        };
        Ok(RawTargetEndpoint { name, chain_id, url })
    }
}

/// Whether `r` is what reading the sections `chains` (where the file has one) and `endpoints`
/// gives: the first error in file order, else raw settings holding what the tables hold.
pub open spec fn reads_tables(
    r: Result<RawSettings, RawSettingsError>,
    chains: Option<Seq<Seq<(String, SettingValue)>>>,
    endpoints: Seq<Seq<(String, SettingValue)>>,
) -> bool {
    match r {
        Ok(rs) => {
            &&& raw_settings_check(chains, endpoints) is Ok
            &&& match chains {
                None => rs.chains is None,
                Some(cs) => rs.chains matches Some(v) && chains_of_tables(cs) == Ok::<Seq<RawChain>, RawSettingsError>(v@),
            }
            &&& rs.target_endpoints@.len() == endpoints.len()
            &&& forall|i: int|
                0 <= i < endpoints.len() ==> endpoint_matches_table(#[trigger] rs.target_endpoints@[i], endpoints[i])
        },
        Err(e) => raw_settings_check(chains, endpoints) == Err::<(), RawSettingsError>(e),
    }
}

/// Reads the `chains` and `target_endpoints` sections of a settings file, as loaded. Fails at
/// the first table, in file order, that lacks a required field or has a field without the form
/// (number or text) that it is read in. Fields that are not read may hold anything.
pub fn raw_settings_from_tables(
    chains: &Option<Vec<Vec<(String, SettingValue)>>>,
    endpoints: &Vec<Vec<(String, SettingValue)>>,
) -> (r: Result<RawSettings, RawSettingsError>)
    ensures
        reads_tables(
            r,
            match chains {
                Some(cs) => Some(tables_view(cs@)),
                None => None,
            },
            tables_view(endpoints@),
        ),
{
    let raw_chains: Option<Vec<RawChain>> = match chains {
        None => None,
        Some(cs) => {
            let ghost tv = tables_view(cs@);
            assert(*chains == Some(*cs));
            let mut v: Vec<RawChain> = Vec::new();
            let mut i: usize = 0;
            assert(tv.take(0) =~= Seq::<Seq<(String, SettingValue)>>::empty());
            while i < cs.len()
                invariant
                    i <= cs.len(),
                    *chains == Some(*cs),
                    tv == tables_view(cs@),
                    chains_of_tables(tv.take(i as int)) == Ok::<Seq<RawChain>, RawSettingsError>(v@),
                decreases cs.len() - i,
            {
                assert(tv.take(i as int + 1).drop_last() =~= tv.take(i as int));
                assert(tv.take(i as int + 1).last() == cs@[i as int]@);
                match RawChain::from_table(&cs[i]) {
                    Ok(c) => {
                        v.push(c);
                    },
                    Err(e) => {
                        proof {
                            assert(chains_of_tables(tv.take(i as int + 1)) == Err::<Seq<RawChain>, RawSettingsError>(e));
                            lemma_chains_error_extends(tv, i as int + 1);
                            assert(chains_of_tables(tv) == Err::<Seq<RawChain>, RawSettingsError>(e));
                        }
                        return Err(e);
                    },
                }
                i = i + 1;
            }
            assert(tv.take(i as int) =~= tv);
            Some(v)
        },
    };
    let ghost ev = tables_view(endpoints@);
    let mut target_endpoints: Vec<RawTargetEndpoint> = Vec::new();
    let mut i: usize = 0;
    assert(ev.take(0) =~= Seq::<Seq<(String, SettingValue)>>::empty());
    while i < endpoints.len()
        invariant
            i <= endpoints.len(),
            ev == tables_view(endpoints@),
            endpoints_check(ev.take(i as int)) == Ok::<(), RawSettingsError>(()),
            target_endpoints@.len() == i,
            forall|j: int|
                0 <= j < i ==> endpoint_matches_table(#[trigger] target_endpoints@[j], endpoints@[j]@),
            match chains {
                Some(cs) => raw_chains matches Some(v) && chains_of_tables(tables_view(cs@)) == Ok::<Seq<RawChain>, RawSettingsError>(v@),
                None => raw_chains is None,
            },
        decreases endpoints.len() - i,
    {
        assert(ev.take(i as int + 1).drop_last() =~= ev.take(i as int));
        assert(ev.take(i as int + 1).last() == endpoints@[i as int]@);
        match RawTargetEndpoint::from_table(&endpoints[i]) {
            Ok(e) => {
                target_endpoints.push(e);
            },
            Err(e) => {
                proof {
                    lemma_endpoints_error_extends(ev, i as int + 1);
                }
                return Err(e);
            },
        }
        i = i + 1;
    }
    assert(ev.take(i as int) =~= ev);
    Ok(RawSettings { chains: raw_chains, target_endpoints })
}


#[verifier::external_type_specification]
#[verifier::external_body]
pub struct ExConfigValue(config::Value);

/// A table of the settings file as the config crate loaded it.
pub type LoadedTable = Vec<(String, config::Value)>;

/// Loads the settings file `path` (any format the config crate knows, found by its name
/// without extension) and reads the sections `keys.0` and `keys.1` of it, each as a list of
/// tables or the config crate's error (`Config::builder`, `File::with_name`, `build`, `get`).
/// What the file holds is not stated: it depends on the disk.
#[verifier::external_body]
fn load_sections(path: &str, keys: (&str, &str)) -> (r: Result<
    (Result<Vec<LoadedTable>, config::ConfigError>, Result<Vec<LoadedTable>, config::ConfigError>),
    config::ConfigError,
>) {
    let s = config::Config::builder().add_source(config::File::with_name(path)).build()?;
    let section = |key: &str| -> Result<Vec<LoadedTable>, config::ConfigError> {
        let tables: Vec<HashMap<String, config::Value>> = s.get(key)?;
        Ok(tables.into_iter().map(|t| t.into_iter().collect()).collect())
    };
    Ok((section(keys.0), section(keys.1)))
}

/// Whether `e` is `ConfigError::NotFound`, the error of a key the configuration lacks. Not
/// stated: the error is opaque.
#[verifier::external_body]
fn is_not_found(e: &config::ConfigError) -> (r: bool) {
    match e {
        config::ConfigError::NotFound(_) => true,
        _ => false,
    }
}

/// The forms the config crate reads a value in: `config::Value::into_string` and
/// `config::Value::into_uint` where they succeed, and whether the value is nil. Not stated: it
/// depends on the value, which comes from the disk.
#[verifier::external_body]
fn setting_value(v: &config::Value) -> (r: SettingValue) {
    SettingValue {
        text: v.clone().into_string().ok(),
        number: v.clone().into_uint().ok(),
        nil: match v.kind {
            config::ValueKind::Nil => true,
            _ => false,
        },
    }
}

/// Whether the table `read` has the keys of the loaded table `loaded`, in order.
pub open spec fn keys_match(read: Seq<(String, SettingValue)>, loaded: Seq<(String, config::Value)>) -> bool {
    &&& read.len() == loaded.len()
    &&& forall|i: int| 0 <= i < loaded.len() ==> #[trigger] read[i].0@ == loaded[i].0@
}

/// Whether the tables `read` are the loaded tables `loaded`, each with its keys in order.
pub open spec fn tables_match(read: Seq<Seq<(String, SettingValue)>>, loaded: Seq<LoadedTable>) -> bool {
    &&& read.len() == loaded.len()
    &&& forall|i: int| 0 <= i < loaded.len() ==> #[trigger] keys_match(read[i], loaded[i]@)
}

/// A loaded table with each value in the forms the settings read it in; the keys stay as
/// they are, in order.
fn read_table(t: &LoadedTable) -> (r: RawTable)
    ensures
        keys_match(r@, t@),
{
    let mut out: RawTable = Vec::new();
    let mut i: usize = 0;
    while i < t.len()
        invariant
            i <= t.len(),
            out@.len() == i,
            forall|j: int| 0 <= j < i ==> #[trigger] out@[j].0@ == t@[j].0@,
        decreases t.len() - i,
    {
        let key = t[i].0.clone();
        out.push((key, setting_value(&t[i].1)));
        i = i + 1;
    }
    out
}

/// The loaded tables of a section, each read by [`read_table`].
fn read_tables(ts: &Vec<LoadedTable>) -> (r: Vec<RawTable>)
    ensures
        tables_match(tables_view(r@), ts@),
{
    let mut out: Vec<RawTable> = Vec::new();
    let mut i: usize = 0;
    while i < ts.len()
        invariant
            i <= ts.len(),
            out@.len() == i,
            forall|j: int| 0 <= j < i ==> #[trigger] keys_match(out@[j]@, ts@[j]@),
        decreases ts.len() - i,
    {
        out.push(read_table(&ts[i]));
        i = i + 1;
    }
    assert(tables_view(out@).len() == ts@.len());
    assert forall|j: int| 0 <= j < ts@.len() implies #[trigger] keys_match(tables_view(out@)[j], ts@[j]@) by {
        assert(tables_view(out@)[j] == out@[j]@);
    }
    out
}

/// A section of the settings file as loaded: its tables, or why there are none.
pub enum LoadedSection {
    /// The section's tables.
    Tables(Vec<LoadedTable>),
    /// The file has no key of the section's name; the config crate's error says so.
    Missing(config::ConfigError),
    /// The key is there but does not hold a list of tables.
    Unreadable(config::ConfigError),
}

/// The error a section gives: none where it holds tables or, being `optional`, is missing.
pub open spec fn section_error(s: LoadedSection, optional: bool) -> Option<config::ConfigError> {
    match s {
        LoadedSection::Tables(_) => None,
        LoadedSection::Missing(e) => if optional {
            None
        } else {
            Some(e)
        },
        LoadedSection::Unreadable(e) => Some(e),
    }
}

/// Whether `read` is what is read of the `chains` section `s`: nothing where it is missing,
/// else its tables, each with the keys it was loaded with.
pub open spec fn chains_read_from(read: Option<Seq<Seq<(String, SettingValue)>>>, s: LoadedSection) -> bool {
    match s {
        LoadedSection::Tables(ts) => read matches Some(r) && tables_match(r, ts@),
        _ => read is None,
    }
}

/// Whether `read` is what is read of the `target_endpoints` section `s`.
pub open spec fn endpoints_read_from(read: Seq<Seq<(String, SettingValue)>>, s: LoadedSection) -> bool {
    s matches LoadedSection::Tables(ts) && tables_match(read, ts@)
}

/// The two sections of a settings file, as loaded, read into raw settings. A missing `chains`
/// section is no error: the settings then list no chains. An unreadable `chains` section, and
/// a missing or unreadable `target_endpoints` section, fail with the config crate's error (in
/// that order). Otherwise the result is what [`raw_settings_from_tables`] gives for the
/// sections' tables, with each value in the forms the config crate reads it in.
pub fn raw_settings_from_sections(chains: LoadedSection, endpoints: LoadedSection) -> (r: Result<RawSettings, RawSettingsError>)
    ensures
        section_error(chains, true) matches Some(e) ==> r == Err::<RawSettings, RawSettingsError>(
            RawSettingsError::Config(e),
        ),
        section_error(chains, true) is None ==> (section_error(endpoints, false) matches Some(e) ==> r == Err::<
            RawSettings,
            RawSettingsError,
        >(RawSettingsError::Config(e))),
        section_error(chains, true) is None && section_error(endpoints, false) is None ==> !(r matches Err(
            RawSettingsError::Config(_),
        )) && exists|cs: Option<Seq<Seq<(String, SettingValue)>>>, es: Seq<Seq<(String, SettingValue)>>|
            chains_read_from(cs, chains) && endpoints_read_from(es, endpoints) && #[trigger] reads_tables(r, cs, es),
{
    let ghost chains_in = chains;
    let ghost endpoints_in = endpoints;
    let read_chains = match chains {
        LoadedSection::Tables(ts) => Some(read_tables(&ts)),
        LoadedSection::Missing(_) => None,
        LoadedSection::Unreadable(e) => return Err(RawSettingsError::Config(e)),
    };
    let read_endpoints = match endpoints {
        LoadedSection::Tables(ts) => read_tables(&ts),
        LoadedSection::Missing(e) => return Err(RawSettingsError::Config(e)),
        LoadedSection::Unreadable(e) => return Err(RawSettingsError::Config(e)),
    };
    let r = raw_settings_from_tables(&read_chains, &read_endpoints);
    proof {
        let cs = match read_chains {
            Some(v) => Some(tables_view(v@)),
            None => None,
        };
        let es = tables_view(read_endpoints@);
        lemma_no_config_error(r, cs, es);
        assert(chains_read_from(cs, chains_in));
        assert(endpoints_read_from(es, endpoints_in));
        assert(reads_tables(r, cs, es));
    }
    r
}

/// The `chains` section is optional: read without it, endpoint tables that are fine give raw
/// settings that list no chains, and whatever a `chains` section holds can only add errors,
/// never remove one.
pub proof fn lemma_chains_section_is_optional(
    r: Result<RawSettings, RawSettingsError>,
    chains: Seq<Seq<(String, SettingValue)>>,
    endpoints: Seq<Seq<(String, SettingValue)>>,
)
    ensures
        reads_tables(r, None, endpoints) && endpoints_check(endpoints) is Ok ==> (r matches Ok(rs) && rs.chains is None),
        raw_settings_check(None, endpoints) is Err ==> raw_settings_check(Some(chains), endpoints) is Err,
{
}

/// Reading tables never gives a config error: those come only from loading the file.
proof fn lemma_no_config_error(
    r: Result<RawSettings, RawSettingsError>,
    chains: Option<Seq<Seq<(String, SettingValue)>>>,
    endpoints: Seq<Seq<(String, SettingValue)>>,
)
    requires
        reads_tables(r, chains, endpoints),
    ensures
        !(r matches Err(RawSettingsError::Config(_))),
{
    if let Err(e) = r {
        lemma_check_error_kinds(chains, endpoints);
    }
}

/// The errors of reading tables are about fields.
proof fn lemma_check_error_kinds(chains: Option<Seq<Seq<(String, SettingValue)>>>, endpoints: Seq<Seq<(String, SettingValue)>>)
    ensures
        raw_settings_check(chains, endpoints) matches Err(e) ==> !(e is Config),
{
    if let Some(cs) = chains {
        lemma_chains_error_kinds(cs);
    }
    lemma_endpoints_error_kinds(endpoints);
}

proof fn lemma_chains_error_kinds(ts: Seq<Seq<(String, SettingValue)>>)
    ensures
        chains_of_tables(ts) matches Err(e) ==> !(e is Config),
    decreases ts.len(),
{
    if ts.len() > 0 {
        lemma_chains_error_kinds(ts.drop_last());
    }
}

proof fn lemma_endpoints_error_kinds(ts: Seq<Seq<(String, SettingValue)>>)
    ensures
        endpoints_check(ts) matches Err(e) ==> !(e is Config),
    decreases ts.len(),
{
    if ts.len() > 0 {
        lemma_endpoints_error_kinds(ts.drop_last());
    }
}

/// A section result of the config crate as a loaded section: a `NotFound` error means the file
/// has no such key.
fn classify_section(section: Result<Vec<LoadedTable>, config::ConfigError>) -> (r: LoadedSection)
    ensures
        match section {
            Ok(ts) => r == LoadedSection::Tables(ts),
            Err(e) => r == LoadedSection::Missing(e) || r == LoadedSection::Unreadable(e),
        },
{
    match section {
        Ok(ts) => LoadedSection::Tables(ts),
        Err(e) => if is_not_found(&e) {
            LoadedSection::Missing(e)
        } else {
            LoadedSection::Unreadable(e)
        },
    }
}

impl RawSettings {
    /// Reads the settings file `path`: its `chains` section, none where the file has no such
    /// key, and its `target_endpoints` section. Fails with `RawSettingsError::Config` where the
    /// file cannot be loaded, a section cannot be read as a list of tables, or
    /// `target_endpoints` is missing; otherwise the result is [`raw_settings_from_sections`] of
    /// the sections, which depend on the disk.
    pub fn from_config_file(path: &str) -> (r: Result<Self, RawSettingsError>)
        ensures
            r matches Err(RawSettingsError::Config(_)) || exists|
                chains: Option<Seq<Seq<(String, SettingValue)>>>,
                endpoints: Seq<Seq<(String, SettingValue)>>,
            | #[trigger] reads_tables(r, chains, endpoints),
    {
        let (chain_section, endpoint_section) = match load_sections(path, ("chains", "target_endpoints")) {
            Ok(sections) => sections,
            Err(e) => return Err(RawSettingsError::Config(e)),
        };
        let r = raw_settings_from_sections(classify_section(chain_section), classify_section(endpoint_section));
        proof {
            if !(r matches Err(RawSettingsError::Config(_))) {
                let (cs, es) = choose|cs: Option<Seq<Seq<(String, SettingValue)>>>, es: Seq<Seq<(String, SettingValue)>>|
                    #[trigger] reads_tables(r, cs, es);
                assert(reads_tables(r, cs, es));
            }
        }
        r
    }
}

/// The chain an id gets when the settings list no chain of that id.
pub open spec fn default_chain(c: u64) -> &'static Chain {
    &Chain { chain_id: ChainId(c), block_time: None }
}

/// `m` with a default chain for `c` where it has none.
pub open spec fn with_default_chain(m: Map<u64, &'static Chain>, c: u64) -> Map<u64, &'static Chain> {
    if m.contains_key(c) {
        m
    } else {
        m.insert(c, default_chain(c))
    }
}

/// Whether `e` is the endpoint named `name` on `chain` at the parsed URL `(scheme, href)`,
/// of the transport its scheme calls for.
pub open spec fn endpoint_built_from(
    e: TargetEndpoint,
    name: Seq<char>,
    chain: &'static Chain,
    scheme: Seq<char>,
    href: Seq<char>,
) -> bool {
    &&& e.base_spec().name@ == name
    &&& e.base_spec().chain == chain
    &&& e.base_spec().url.scheme@ == scheme
    &&& e.base_spec().url.href@ == href
    &&& (e is Http <==> is_http_scheme(scheme))
    &&& (e is WebSocket <==> is_web_socket_scheme(scheme))
}

/// Whether a raw endpoint's URL parses and has a scheme the gateway serves.
pub open spec fn endpoint_ok(raw: RawTargetEndpoint) -> bool {
    match url_parse_result(raw.url@) {
        Ok((scheme, _)) => is_http_scheme(scheme) || is_web_socket_scheme(scheme),
        Err(_) => false,
    }
}

/// Whether `e` is the error a raw endpoint that is not ok gives.
pub open spec fn endpoint_error(raw: RawTargetEndpoint, e: SettingsError) -> bool {
    match url_parse_result(raw.url@) {
        Err(pe) => e == SettingsError::UrlParseError(pe),
        Ok(_) => e == SettingsError::InitTargetEndpointError(InitTargetEndpointError::WrongScheme),
    }
}

impl RawTargetEndpoint {
    /// Makes the endpoint: its chain is the one `chains_map` holds for its id, or a new chain
    /// of that id without block time, which is then added to the map (also when the endpoint
    /// itself fails); its URL must parse and have scheme `http(s)` or `ws(s)`.
    pub fn try_into_target_endpoint(self, chains_map: &mut HashMap<u64, &'static Chain>) -> (r: Result<
        TargetEndpoint,
        SettingsError,
    >)
        ensures
            final(chains_map)@ == with_default_chain(old(chains_map)@, self.chain_id),
            match url_parse_result(self.url@) {
                Err(pe) => r == Err::<TargetEndpoint, SettingsError>(SettingsError::UrlParseError(pe)),
                Ok((scheme, href)) => if is_http_scheme(scheme) || is_web_socket_scheme(scheme) {
                    r matches Ok(e) && endpoint_built_from(
                        e,
                        self.name@,
                        final(chains_map)@[self.chain_id],
                        scheme,
                        href,
                    )
                } else {
                    r == Err::<TargetEndpoint, SettingsError>(
                        SettingsError::InitTargetEndpointError(InitTargetEndpointError::WrongScheme),
                    )
                },
            },
    {
        let chain_id = self.chain_id;
        let chain: &'static Chain = match chains_map.get(&chain_id) {
            Some(c) => *c,
            None => {
                let c = Chain::from(ChainId(chain_id)).leak();
                chains_map.insert(chain_id, c);
                c
            },
        };
        assert(chains_map@ == with_default_chain(old(chains_map)@, chain_id));
        assert(chains_map@[chain_id] == chain);
        let url = match parse_url(self.url.as_str()) {
            Ok(u) => u,
            Err(e) => return Err(SettingsError::UrlParseError(e)),
        };
        let base = TargetEndpointBase { name: self.name, chain, url };
        match TargetEndpoint::try_from_base(base) {
            Ok(e) => Ok(e),
            Err(e) => Err(SettingsError::InitTargetEndpointError(e)),
        }
    }
}


/// The chains the settings list, keyed by id; a later chain of the same id replaces an earlier one.
pub open spec fn chains_map_of(rc: Seq<RawChain>) -> Map<u64, &'static Chain>
    decreases rc.len(),
{
    if rc.len() == 0 {
        Map::empty()
    } else {
        chains_map_of(rc.drop_last()).insert(
            rc.last().chain_id,
            &Chain { chain_id: ChainId(rc.last().chain_id), block_time: rc.last().block_time },
        )
    }
}

/// The chain endpoints of id `c` end up on: the listed chain of that id, else a default one.
pub open spec fn resolved_chain(rc: Seq<RawChain>, c: u64) -> &'static Chain {
    if chains_map_of(rc).contains_key(c) {
        chains_map_of(rc)[c]
    } else {
        default_chain(c)
    }
}

/// Whether `e` is the endpoint the raw endpoint `raw` becomes, given the listed chains `rc`.
pub open spec fn endpoint_of_raw(raw: RawTargetEndpoint, e: TargetEndpoint, rc: Seq<RawChain>) -> bool {
    match url_parse_result(raw.url@) {
        Ok((scheme, href)) => endpoint_built_from(e, raw.name@, resolved_chain(rc, raw.chain_id), scheme, href),
        Err(_) => false,
    }
}

/// The listed chains of raw settings, none where the section is absent.
pub open spec fn listed_chains(value: RawSettings) -> Seq<RawChain> {
    match value.chains {
        Some(v) => v@,
        None => seq![],
    }
}

impl Settings {
    /// Turns raw settings into settings: every raw endpoint becomes a target endpoint of the
    /// listed chain of its id (a chain without block time where none is listed), and the
    /// endpoints are grouped by chain. Fails with the error of the first raw endpoint whose URL
    /// does not parse or has a scheme the gateway does not serve.
    pub fn try_from_raw(value: RawSettings) -> (r: Result<Settings, SettingsError>)
        ensures
            ({
                let rc = listed_chains(value);
                let eps = value.target_endpoints@;
                match r {
                    Ok(settings) => {
                        &&& forall|i: int| 0 <= i < eps.len() ==> endpoint_ok(#[trigger] eps[i])
                        &&& exists|built: Seq<TargetEndpoint>| {
                            &&& built.len() == eps.len()
                            &&& forall|i: int| 0 <= i < eps.len() ==> endpoint_of_raw(#[trigger] eps[i], built[i], rc)
                            &&& groups_endpoints(settings.chains_to_targets.0@, built)
                        }
                    },
                    Err(e) => exists|k: int| {
                        &&& 0 <= k < eps.len()
                        &&& (forall|j: int| 0 <= j < k ==> endpoint_ok(#[trigger] eps[j]))
                        &&& !endpoint_ok(#[trigger] eps[k])
                        &&& endpoint_error(eps[k], e)
                    },
                }
            }),
    {
        let ghost rc = listed_chains(value);
        let ghost eps = value.target_endpoints@;
        let mut chains_map: HashMap<u64, &'static Chain> = HashMap::new();
        match value.chains {
            Some(cs) => {
                let ghost all = cs@;
                for c in it: cs.into_iter()
                    invariant
                        it.seq() == all,
                        all == rc,
                        chains_map@ == chains_map_of(all.take(it.index() as int)),
                {
                    proof {
                        assert(all.take(it.index() as int + 1).drop_last() =~= all.take(it.index() as int));
                    }
                    let chain = Chain::new(ChainId(c.chain_id), c.block_time).leak();
                    chains_map.insert(c.chain_id, chain);
                }
                proof {
                    assert(all.take(all.len() as int) =~= all);
                }
            },
            None => {
                assert(rc =~= Seq::<RawChain>::empty());
            },
        }
        let mut built: Vec<TargetEndpoint> = Vec::new();
        for raw in it: value.target_endpoints.into_iter()
            invariant
                it.seq() == eps,
                built@.len() == it.index(),
                forall|j: int| 0 <= j < it.index() ==> endpoint_ok(#[trigger] eps[j]),
                forall|j: int| 0 <= j < it.index() ==> endpoint_of_raw(#[trigger] eps[j], built@[j], rc),
                forall|c: u64| #[trigger] chains_map_of(rc).contains_key(c) ==> chains_map@.contains_key(c),
                forall|c: u64| #[trigger] chains_map@.contains_key(c) ==> chains_map@[c] == resolved_chain(rc, c),
        {
            let ghost k = it.index() as int;
            assert(raw == eps[k]);
            match raw.try_into_target_endpoint(&mut chains_map) {
                Ok(e) => {
                    built.push(e);
                },
                Err(e) => {
                    return Err(e);
                },
            }
        }
        let chains_to_targets = ChainsToEndpoints::from_endpoints(built);
        Ok(Settings::new(chains_to_targets))
    }
}

} // verus!
