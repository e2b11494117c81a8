//! The route table: which virtual hosts listen on which ports, and which rule
//! of a virtual host answers a path.

use vstd::prelude::*;
use crate::text::{bytes_of, lemma_bytes_of_empty, same_bytes, starts_with, text_starts_with};
use crate::util::ParamRef;
use crate::version::Type;

verus! {

/// Paths below this prefix belong to the gateway itself: no rule answers them.
pub const ACME_URI_PREFIX: &'static str = "/.well-known";

/// The configuration as it is loaded: the virtual hosts in their order.
pub struct RoutersConfig<A> {
    pub configs: Vec<RouterConfig<A>>,
}

/// One virtual host: its name, the ports it listens on, its rules in the
/// order they were written, and what it needs for TLS.
pub struct RouterConfig<A> {
    pub server_name: String,
    pub protocol: Type,
    pub listen_port: Vec<u16>,
    pub rules: Vec<RouterRule<A>>,
    pub tls: Option<TlsConfig>,
}

/// How a virtual host comes by its certificate: the contact for the
/// certificate authority and, where the certificate is provided, the files
/// that hold chain and key.
pub struct TlsConfig {
    pub mail: String,
    pub chain: Option<String>,
    pub private_key: Option<String>,
}

/// One rule: requests whose path begins with `path` go to `proxy_pass`.
pub struct RouterRule<A> {
    pub path: String,
    pub proxy_pass: A,
}

impl<A> RouterConfig<A> {
    /// The rules, in the order they were written.
    pub fn get_rules(&self) -> (rules: &Vec<RouterRule<A>>)
        ensures
            *rules == self.rules,
    {
        &self.rules
    }
}

impl<A> RouterRule<A> {
    /// The prefix a path must begin with.
    pub fn get_path(&self) -> (path: &String)
        ensures
            *path == self.path,
    {
        &self.path
    }

    /// Where matching requests go.
    pub fn get_proxy_pass(&self) -> (upstream: &A)
        ensures
            *upstream == self.proxy_pass,
    {
        &self.proxy_pass
    }
}

/// The prefixes of a list of rules, as bytes.
pub open spec fn prefixes<A>(rules: Seq<RouterRule<A>>) -> Seq<Seq<u8>> {
    rules.map_values(|r: RouterRule<A>| bytes_of(r.path@))
}

/// Rule `i` is the one that answers `path`: its prefix begins the path, no
/// matching prefix is longer, and every earlier matching prefix is shorter.
pub open spec fn is_selected(prefixes: Seq<Seq<u8>>, path: Seq<u8>, i: int) -> bool {
    &&& 0 <= i < prefixes.len()
    &&& prefixes[i].is_prefix_of(path)
    &&& forall|j: int|
        0 <= j < prefixes.len() && (#[trigger] prefixes[j]).is_prefix_of(path) ==> prefixes[j].len()
            <= prefixes[i].len()
    &&& forall|j: int|
        0 <= j < i && (#[trigger] prefixes[j]).is_prefix_of(path) ==> prefixes[j].len()
            < prefixes[i].len()
}

/// The rule that answers `path`, if any prefix begins the path.
pub open spec fn selected(prefixes: Seq<Seq<u8>>, path: Seq<u8>) -> Option<int> {
    if exists|i: int| is_selected(prefixes, path, i) {
        Some(choose|i: int| is_selected(prefixes, path, i))
    } else {
        None
    }
}

/// At most one rule answers a path: among the rules that share the longest
/// matching prefix it is the earliest, so the choice never depends on
/// anything but the rules and the path.
pub proof fn lemma_selected_unique(prefixes: Seq<Seq<u8>>, path: Seq<u8>, i: int, j: int)
    requires
        is_selected(prefixes, path, i),
        is_selected(prefixes, path, j),
    ensures
        i == j,
{
    if i < j {
        assert(prefixes[i].len() < prefixes[j].len());
        assert(prefixes[j].len() <= prefixes[i].len());
    } else if j < i {
        assert(prefixes[j].len() < prefixes[i].len());
        assert(prefixes[i].len() <= prefixes[j].len());
    }
}

/// `selected` is the one rule that answers the path.
pub proof fn lemma_selected_is(prefixes: Seq<Seq<u8>>, path: Seq<u8>, i: int)
    requires
        is_selected(prefixes, path, i),
    ensures
        selected(prefixes, path) == Some(i),
{
    let k = choose|k: int| is_selected(prefixes, path, k);
    lemma_selected_unique(prefixes, path, i, k);
}

/// A rule is selected exactly when some prefix begins the path.
pub proof fn lemma_selected_exists(prefixes: Seq<Seq<u8>>, path: Seq<u8>)
    ensures
        selected(prefixes, path) is Some <==> exists|j: int|
            0 <= j < prefixes.len() && (#[trigger] prefixes[j]).is_prefix_of(path),
        selected(prefixes, path) matches Some(i) ==> is_selected(prefixes, path, i),
    decreases prefixes.len(),
{
    if selected(prefixes, path) is Some {
        let i = choose|i: int| is_selected(prefixes, path, i);
        assert(prefixes[i].is_prefix_of(path));
    }
    if exists|j: int| 0 <= j < prefixes.len() && (#[trigger] prefixes[j]).is_prefix_of(path) {
        let front = prefixes.drop_last();
        let last = prefixes.len() - 1;
        lemma_selected_exists(front, path);
        assert forall|j: int| 0 <= j < front.len() implies front[j] == prefixes[j] by {}
        if selected(front, path) is Some {
            let b = selected(front, path).unwrap();
            assert(is_selected(front, path, b));
            if prefixes[last].is_prefix_of(path) && prefixes[b].len() < prefixes[last].len() {
                assert forall|j: int|
                    0 <= j < prefixes.len() && (#[trigger] prefixes[j]).is_prefix_of(
                        path,
                    ) implies prefixes[j].len() <= prefixes[last].len() by {
                    if j < last {
                        assert(front[j].is_prefix_of(path));
                    }
                }
                assert forall|j: int|
                    0 <= j < last && (#[trigger] prefixes[j]).is_prefix_of(
                        path,
                    ) implies prefixes[j].len() < prefixes[last].len() by {
                    assert(front[j].is_prefix_of(path));
                }
                assert(is_selected(prefixes, path, last));
            } else {
                assert forall|j: int|
                    0 <= j < prefixes.len() && (#[trigger] prefixes[j]).is_prefix_of(
                        path,
                    ) implies prefixes[j].len() <= prefixes[b].len() by {
                    if j < last {
                        assert(front[j].is_prefix_of(path));
                    }
                }
                assert forall|j: int|
                    0 <= j < b && (#[trigger] prefixes[j]).is_prefix_of(
                        path,
                    ) implies prefixes[j].len() < prefixes[b].len() by {
                    assert(front[j].is_prefix_of(path));
                }
                assert(is_selected(prefixes, path, b));
            }
        } else {
            assert forall|j: int| 0 <= j < last implies !(#[trigger] prefixes[j]).is_prefix_of(
                path,
            ) by {
                assert(front[j] == prefixes[j]);
            }
            assert(is_selected(prefixes, path, last));
        }
    }
}

/// A rule with an empty prefix answers every path that no other rule
/// answers, and gives way to every rule whose prefix is not empty and
/// begins the path.
pub proof fn lemma_empty_prefix_is_default(prefixes: Seq<Seq<u8>>, path: Seq<u8>, k: int)
    requires
        0 <= k < prefixes.len(),
        prefixes[k].len() == 0,
    ensures
        prefixes[k].is_prefix_of(path),
        selected(prefixes, path) is Some,
        forall|j: int|
            0 <= j < prefixes.len() && (#[trigger] prefixes[j]).is_prefix_of(path)
                && prefixes[j].len() > 0 ==> prefixes[selected(prefixes, path).unwrap()].len() > 0,
{
    assert(prefixes[k].is_prefix_of(path));
    lemma_selected_exists(prefixes, path);
}

/// A rule whose path is empty answers every path, and is chosen only where
/// no rule with a path that is not empty answers.
pub proof fn lemma_empty_path_is_default<A>(rules: Seq<RouterRule<A>>, path: Seq<char>, k: int)
    requires
        0 <= k < rules.len(),
        rules[k].path@.len() == 0,
    ensures
        selected(prefixes(rules), bytes_of(path)) is Some,
        forall|j: int|
            0 <= j < rules.len() && bytes_of((#[trigger] rules[j]).path@).is_prefix_of(
                bytes_of(path),
            ) && bytes_of(rules[j].path@).len() > 0 ==> prefixes(rules)[selected(
                prefixes(rules),
                bytes_of(path),
            ).unwrap()].len() > 0,
{
    lemma_bytes_of_empty();
    assert(rules[k].path@ =~= Seq::<char>::empty());
    assert(prefixes(rules)[k] == bytes_of(rules[k].path@));
    lemma_empty_prefix_is_default(prefixes(rules), bytes_of(path), k);
    assert forall|j: int|
        0 <= j < rules.len() && bytes_of((#[trigger] rules[j]).path@).is_prefix_of(
            bytes_of(path),
        ) && bytes_of(rules[j].path@).len() > 0 implies prefixes(rules)[selected(
        prefixes(rules),
        bytes_of(path),
    ).unwrap()].len() > 0 by {
        assert(prefixes(rules)[j] == bytes_of(rules[j].path@));
    }
}

/// The position of the rule that answers `req_path`: the earliest of the
/// rules whose prefix is the longest one that begins the path, byte for
/// byte. Nothing where no prefix begins the path.
pub fn longest_match_index<A>(req_path: &str, routes: &Vec<RouterRule<A>>) -> (found: Option<usize>)
    ensures
        match found {
            Some(i) => selected(prefixes(routes@), bytes_of(req_path@)) == Some(i as int)
                && is_selected(prefixes(routes@), bytes_of(req_path@), i as int),
            None => selected(prefixes(routes@), bytes_of(req_path@)) is None,
        },
{
    let path = req_path.as_bytes();
    let ghost all = prefixes(routes@);
    let mut best: Option<usize> = None;
    let mut best_len: usize = 0;
    let mut k: usize = 0;
    while k < routes.len()
        invariant
            k <= routes.len(),
            all == prefixes(routes@),
            path@ == bytes_of(req_path@),
            match best {
                Some(i) => {
                    &&& i < k
                    &&& best_len == all[i as int].len()
                    &&& all[i as int].is_prefix_of(path@)
                    &&& forall|j: int|
                        0 <= j < k && (#[trigger] all[j]).is_prefix_of(path@) ==> all[j].len()
                            <= all[i as int].len()
                    &&& forall|j: int|
                        0 <= j < i && (#[trigger] all[j]).is_prefix_of(path@) ==> all[j].len()
                            < all[i as int].len()
                },
                None => forall|j: int| 0 <= j < k ==> !(#[trigger] all[j]).is_prefix_of(path@),
            },
        decreases routes.len() - k,
    {
        let prefix = routes[k].path.as_str().as_bytes();
        assert(prefix@ == all[k as int]);
        if starts_with(path, prefix) {
            let longer = match best {
                Some(_) => prefix.len() > best_len,
                None => true,
            };
            if longer {
                best = Some(k);
                best_len = prefix.len();
            }
        }
        k += 1;
    }
    proof {
        match best {
            Some(i) => {
                lemma_selected_is(all, path@, i as int);
            },
            None => {
                lemma_selected_exists(all, path@);
            },
        }
    }
    best
}

/// The rule that a request for `path` is forwarded by: none for a path below
/// `/.well-known`, whatever the rules are, and the selected rule for every
/// other path.
pub open spec fn matched(prefixes: Seq<Seq<u8>>, path: Seq<u8>) -> Option<int> {
    if bytes_of(ACME_URI_PREFIX@).is_prefix_of(path) {
        None
    } else {
        selected(prefixes, path)
    }
}

/// Below `/.well-known` no rule answers, whatever the rules are; everywhere
/// else a rule whose path is empty makes sure that some rule answers.
pub proof fn lemma_matched<A>(rules: Seq<RouterRule<A>>, path: Seq<char>, k: int)
    ensures
        bytes_of(ACME_URI_PREFIX@).is_prefix_of(bytes_of(path)) ==> matched(
            prefixes(rules),
            bytes_of(path),
        ) is None,
        !bytes_of(ACME_URI_PREFIX@).is_prefix_of(bytes_of(path)) ==> matched(
            prefixes(rules),
            bytes_of(path),
        ) == selected(prefixes(rules), bytes_of(path)),
        0 <= k < rules.len() && rules[k].path@.len() == 0 && !bytes_of(
            ACME_URI_PREFIX@,
        ).is_prefix_of(bytes_of(path)) ==> matched(prefixes(rules), bytes_of(path)) is Some,
{
    if 0 <= k < rules.len() && rules[k].path@.len() == 0 {
        lemma_empty_path_is_default(rules, path, k);
    }
}

/// The rule that a request for `req_path` is forwarded by: the earliest of
/// the rules whose prefix is the longest one that begins the path. Nothing
/// where the path lies below `/.well-known`, and nothing where no prefix
/// begins the path.
pub fn longest_match<'cx, A>(req_path: &str, routes: &'cx Vec<RouterRule<A>>) -> (found: Option<
    &'cx RouterRule<A>,
>)
    ensures
        found is None <==> (bytes_of(ACME_URI_PREFIX@).is_prefix_of(bytes_of(req_path@))
            || selected(prefixes(routes@), bytes_of(req_path@)) is None),
        match found {
            Some(rule) => match matched(prefixes(routes@), bytes_of(req_path@)) {
                Some(i) => 0 <= i < routes.len() && *rule == routes[i],
                None => false,
            },
            None => matched(prefixes(routes@), bytes_of(req_path@)) is None,
        },
{
    if text_starts_with(req_path, ACME_URI_PREFIX) {
        return None;
    }
    match longest_match_index(req_path, routes) {
        Some(i) => Some(&routes[i]),
        None => None,
    }
}

/// Whether a virtual host listens on `port`.
pub open spec fn listens<A>(config: RouterConfig<A>, port: u16) -> bool {
    config.listen_port@.contains(port)
}

/// Whether a virtual host answers requests that arrive on `port` for `host`.
pub open spec fn serves<A>(config: RouterConfig<A>, port: u16, host: Seq<u8>) -> bool {
    listens(config, port) && bytes_of(config.server_name@) == host
}

/// Virtual host `i` is the one that answers on `port` for `host`: the first
/// in the configuration that listens there under that name.
pub open spec fn is_host<A>(configs: Seq<RouterConfig<A>>, port: u16, host: Seq<u8>, i: int) -> bool {
    &&& 0 <= i < configs.len()
    &&& serves(configs[i], port, host)
    &&& forall|j: int| 0 <= j < i ==> !serves(#[trigger] configs[j], port, host)
}

/// The virtual host that answers on `port` for `host`, if there is one.
pub open spec fn host_of<A>(configs: Seq<RouterConfig<A>>, port: u16, host: Seq<u8>) -> Option<int> {
    if exists|i: int| is_host(configs, port, host, i) {
        Some(choose|i: int| is_host(configs, port, host, i))
    } else {
        None
    }
}

/// At most one virtual host answers on a port for a name.
pub proof fn lemma_host_unique<A>(
    configs: Seq<RouterConfig<A>>,
    port: u16,
    host: Seq<u8>,
    i: int,
    j: int,
)
    requires
        is_host(configs, port, host, i),
        is_host(configs, port, host, j),
    ensures
        i == j,
{
}

/// Whether `port` is among `ports`.
pub fn has_port(ports: &Vec<u16>, port: u16) -> (yes: bool)
    ensures
        yes == ports@.contains(port),
{
    let mut k: usize = 0;
    while k < ports.len()
        invariant
            k <= ports.len(),
            forall|j: int| 0 <= j < k ==> ports@[j] != port,
        decreases ports.len() - k,
    {
        if ports[k] == port {
            return true;
        }
        k += 1;
    }
    false
}

/// Whether some virtual host listens on `port`.
pub open spec fn listened<A>(configs: Seq<RouterConfig<A>>, port: u16) -> bool {
    exists|i: int| 0 <= i < configs.len() && listens(#[trigger] configs[i], port)
}

/// Every port that the virtual hosts name, in the order of the
/// configuration, with repetitions.
pub open spec fn all_ports<A>(configs: Seq<RouterConfig<A>>) -> Seq<u16>
    decreases configs.len(),
{
    if configs.len() == 0 {
        Seq::<u16>::empty()
    } else {
        all_ports(configs.drop_last()) + configs.last().listen_port@
    }
}

/// The ports of `ports`, each where it stands first and nowhere else.
pub open spec fn once(ports: Seq<u16>) -> Seq<u16>
    decreases ports.len(),
{
    if ports.len() == 0 {
        ports
    } else if once(ports.drop_last()).contains(ports.last()) {
        once(ports.drop_last())
    } else {
        once(ports.drop_last()).push(ports.last())
    }
}

proof fn lemma_push_contains<T>(s: Seq<T>, y: T, x: T)
    ensures
        s.push(y).contains(x) <==> s.contains(x) || y == x,
{
    let more = s.push(y);
    if more.contains(x) {
        let i = choose|i: int| 0 <= i < more.len() && more[i] == x;
        if i < s.len() {
            assert(s[i] == x);
        }
    }
    if s.contains(x) {
        let i = choose|i: int| 0 <= i < s.len() && s[i] == x;
        assert(more[i] == x);
    }
    if y == x {
        assert(more[s.len() as int] == x);
    }
}

/// `once` holds a port exactly when the list it is made of holds it.
pub proof fn lemma_once_contains(ports: Seq<u16>, port: u16)
    ensures
        once(ports).contains(port) <==> ports.contains(port),
    decreases ports.len(),
{
    if ports.len() > 0 {
        let front = ports.drop_last();
        lemma_once_contains(front, port);
        lemma_once_contains(front, ports.last());
        lemma_push_contains(once(front), ports.last(), port);
        assert(front.push(ports.last()) =~= ports);
        lemma_push_contains(front, ports.last(), port);
    }
}

/// `once` holds no port twice.
pub proof fn lemma_once(ports: Seq<u16>)
    ensures
        once(ports).no_duplicates(),
    decreases ports.len(),
{
    if ports.len() > 0 {
        lemma_once(ports.drop_last());
    }
}

/// A port is among all ports exactly when some virtual host listens on it.
pub proof fn lemma_all_ports<A>(configs: Seq<RouterConfig<A>>, port: u16)
    ensures
        all_ports(configs).contains(port) <==> listened(configs, port),
    decreases configs.len(),
{
    if configs.len() > 0 {
        let front = configs.drop_last();
        let last = configs.last();
        lemma_all_ports(front, port);
        let a = all_ports(front);
        let b = last.listen_port@;
        if (a + b).contains(port) {
            let i = choose|i: int| 0 <= i < (a + b).len() && (a + b)[i] == port;
            if i < a.len() {
                assert(a[i] == port);
                let w = choose|w: int| 0 <= w < front.len() && listens(#[trigger] front[w], port);
                assert(configs[w] == front[w]);
            } else {
                assert(b[i - a.len()] == port);
                assert(listens(configs[configs.len() - 1], port));
            }
        }
        if listened(configs, port) {
            let w = choose|w: int| 0 <= w < configs.len() && listens(#[trigger] configs[w], port);
            if w < front.len() {
                assert(front[w] == configs[w]);
                let i = choose|i: int| 0 <= i < a.len() && a[i] == port;
                assert((a + b)[i] == port);
            } else {
                let i = choose|i: int| 0 <= i < b.len() && b[i] == port;
                assert((a + b)[a.len() + i] == port);
            }
        }
    }
}

/// The positions of the virtual hosts that listen on `port`, in the order of
/// the configuration.
pub open spec fn listening<A>(configs: Seq<RouterConfig<A>>, port: u16) -> Seq<int>
    decreases configs.len(),
{
    if configs.len() == 0 {
        Seq::<int>::empty()
    } else if listens(configs.last(), port) {
        listening(configs.drop_last(), port).push(configs.len() - 1)
    } else {
        listening(configs.drop_last(), port)
    }
}

/// `listening` holds the position of every virtual host that listens on the
/// port and of no other, each once and in rising order.
pub proof fn lemma_listening<A>(configs: Seq<RouterConfig<A>>, port: u16)
    ensures
        forall|k: int|
            0 <= k < listening(configs, port).len() ==> 0 <= #[trigger] listening(configs, port)[k]
                < configs.len() && listens(configs[listening(configs, port)[k]], port),
        forall|k: int, l: int|
            0 <= k < l < listening(configs, port).len() ==> listening(configs, port)[k]
                < listening(configs, port)[l],
        forall|i: int|
            0 <= i < configs.len() && listens(#[trigger] configs[i], port) ==> listening(
                configs,
                port,
            ).contains(i),
    decreases configs.len(),
{
    if configs.len() > 0 {
        let front = configs.drop_last();
        let last = configs.len() - 1;
        lemma_listening(front, port);
        let before = listening(front, port);
        let now = listening(configs, port);
        assert forall|k: int| 0 <= k < before.len() implies configs[#[trigger] before[k]]
            == front[before[k]] by {}
        assert forall|i: int| 0 <= i < configs.len() && listens(
            #[trigger] configs[i],
            port,
        ) implies now.contains(i) by {
            if i < last {
                assert(front[i] == configs[i]);
                assert(before.contains(i));
                let k = choose|k: int| 0 <= k < before.len() && before[k] == i;
                assert(now[k] == i);
            } else {
                assert(now[now.len() - 1] == i);
            }
        }
    }
}

/// The route table. It is built once and only read afterwards.
pub struct Router<A> {
    configs: Vec<RouterConfig<A>>,
}

impl<A> Router<A> {
    /// The virtual hosts of the table, in the order of the configuration.
    pub closed spec fn hosts(&self) -> Seq<RouterConfig<A>> {
        self.configs@
    }

    /// The table for a configuration: it holds the virtual hosts as they
    /// were given.
    pub fn build_with_config(config: RoutersConfig<A>) -> (router: Self)
        ensures
            router.hosts() == config.configs@,
    {
        Router { configs: config.configs }
    }

    /// The number of virtual hosts.
    pub fn len(&self) -> (n: usize)
        ensures
            n == self.hosts().len(),
    {
        self.configs.len()
    }

    /// Virtual host `i`.
    pub fn get(&self, i: usize) -> (config: Option<&RouterConfig<A>>)
        ensures
            match config {
                Some(c) => i < self.hosts().len() && *c == self.hosts()[i as int],
                None => i >= self.hosts().len(),
            },
    {
        if i < self.configs.len() {
            Some(&self.configs[i])
        } else {
            None
        }
    }

    /// The position of the virtual host that answers on `port` for `host`:
    /// the first that listens on the port under exactly that name.
    pub fn find(&self, port: u16, host: &[u8]) -> (found: Option<usize>)
        ensures
            match found {
                Some(i) => host_of(self.hosts(), port, host@) == Some(i as int) && is_host(
                    self.hosts(),
                    port,
                    host@,
                    i as int,
                ),
                None => host_of(self.hosts(), port, host@) is None,
            },
    {
        let mut k: usize = 0;
        while k < self.configs.len()
            invariant
                k <= self.configs.len(),
                forall|j: int| 0 <= j < k ==> !serves(#[trigger] self.configs@[j], port, host@),
            decreases self.configs.len() - k,
        {
            let config = &self.configs[k];
            if has_port(&config.listen_port, port) && same_bytes(
                config.server_name.as_str().as_bytes(),
                host,
            ) {
                proof {
                    assert(is_host(self.hosts(), port, host@, k as int));
                    let c = choose|i: int| is_host(self.hosts(), port, host@, i);
                    lemma_host_unique(self.hosts(), port, host@, c, k as int);
                }
                return Some(k);
            }
            k += 1;
        }
        None
    }

    /// The positions of the virtual hosts that listen on `port`, in the
    /// order of the configuration.
    pub fn hosts_on(&self, port: u16) -> (found: Vec<usize>)
        ensures
            found@.map_values(|i: usize| i as int) == listening(self.hosts(), port),
    {
        let mut found: Vec<usize> = Vec::new();
        let mut k: usize = 0;
        assert(self.configs@.take(0) =~= Seq::<RouterConfig<A>>::empty());
        assert(found@.map_values(|i: usize| i as int) =~= Seq::<int>::empty());
        while k < self.configs.len()
            invariant
                k <= self.configs.len(),
                found@.map_values(|i: usize| i as int) == listening(
                    self.configs@.take(k as int),
                    port,
                ),
            decreases self.configs.len() - k,
        {
            let ghost upto = self.configs@.take(k + 1);
            assert(upto.drop_last() =~= self.configs@.take(k as int));
            assert(upto.last() == self.configs@[k as int]);
            if has_port(&self.configs[k].listen_port, port) {
                let ghost before = found@.map_values(|i: usize| i as int);
                found.push(k);
                assert(found@.map_values(|i: usize| i as int) =~= before.push(k as int));
            }
            k += 1;
        }
        assert(self.configs@.take(k as int) =~= self.configs@);
        found
    }

    /// The ports that the virtual hosts listen on, each once, in the order
    /// in which the configuration names them first.
    pub fn ports(&self) -> (ports: Vec<u16>)
        ensures
            ports@ == once(all_ports(self.hosts())),
            ports@.no_duplicates(),
            forall|p: u16| ports@.contains(p) <==> listened(self.hosts(), p),
    {
        let mut ports: Vec<u16> = Vec::new();
        let mut k: usize = 0;
        assert(self.configs@.take(0) =~= Seq::<RouterConfig<A>>::empty());
        while k < self.configs.len()
            invariant
                k <= self.configs.len(),
                ports@ == once(all_ports(self.configs@.take(k as int))),
            decreases self.configs.len() - k,
        {
            let listen = &self.configs[k].listen_port;
            let ghost done = all_ports(self.configs@.take(k as int));
            let mut n: usize = 0;
            assert(done + listen@.take(0) =~= done);
            while n < listen.len()
                invariant
                    k < self.configs.len(),
                    listen == &self.configs@[k as int].listen_port,
                    n <= listen.len(),
                    done == all_ports(self.configs@.take(k as int)),
                    ports@ == once(done + listen@.take(n as int)),
                decreases listen.len() - n,
            {
                let port = listen[n];
                proof {
                    let next = done + listen@.take(n + 1);
                    assert(next.drop_last() =~= done + listen@.take(n as int));
                    assert(next.last() == port);
                }
                if !has_port(&ports, port) {
                    ports.push(port);
                }
                n += 1;
            }
            proof {
                assert(listen@.take(n as int) =~= listen@);
                let upto = self.configs@.take(k + 1);
                assert(upto.drop_last() =~= self.configs@.take(k as int));
                assert(upto.last() == self.configs@[k as int]);
            }
            k += 1;
        }
        proof {
            assert(self.configs@.take(k as int) =~= self.configs@);
            lemma_once(all_ports(self.configs@));
            assert forall|p: u16| ports@.contains(p) <==> listened(self.configs@, p) by {
                lemma_once_contains(all_ports(self.configs@), p);
                lemma_all_ports(self.configs@, p);
            }
        }
        ports
    }
}

impl<A> ParamRef<Vec<RouterConfig<A>>> for Router<A> {
    /// The virtual hosts of the table.
    fn param_ref(&self) -> (configs: &Vec<RouterConfig<A>>)
        ensures
            configs@ == self.hosts(),
    {
        &self.configs
    }
}

} // verus!
