//! The configuration of a server as a whole: who it is, where it listens,
//! which endpoints it offers and how much it accepts from the wire; and the
//! rules that say when a configuration is legal.

use vstd::prelude::*;
use vstd::std_specs::cmp::PartialEqSpecImpl;
use vstd::string::StringExecFns;
use vstd::utf8::valid_utf8;
use crate::constants::{
    DEFAULT_HELLO_TIMEOUT_SECONDS, DEFAULT_MAX_ARRAY_LENGTH, DEFAULT_MAX_BYTE_STRING_LENGTH,
    DEFAULT_MAX_STRING_LENGTH, DEFAULT_OPC_UA_SERVER_PORT,
};
use crate::endpoint::{reported, EndpointViolation, ServerEndpoint, ServerEndpointView};
use crate::security::MessageSecurityMode;
use crate::text::str_eq;

verus! {

/// How the server listens.
#[derive(Debug)]
pub struct TcpConfig {
    /// Timeout for hello on a session in seconds
    pub hello_timeout: u32,
    /// The hostname to supply in the endpoints
    pub host: String,
    /// The port number of the service
    pub port: u16,
}

/// What a transport configuration holds, as mathematical values.
pub struct TcpConfigView {
    pub hello_timeout: u32,
    pub host: Seq<char>,
    pub port: u16,
}

impl View for TcpConfig {
    type V = TcpConfigView;

    open spec fn view(&self) -> TcpConfigView {
        TcpConfigView { hello_timeout: self.hello_timeout, host: self.host@, port: self.port }
    }
}

/// The configuration of a server.
#[derive(Debug)]
pub struct ServerConfig {
    /// An id for this server
    pub application_name: String,
    /// A description for this server
    pub application_uri: String,
    /// Product url
    pub product_uri: String,
    /// pki folder, either absolute or relative to executable
    pub pki_dir: String,
    /// Flag turns on or off discovery service
    pub discovery_service: bool,
    /// tcp configuration information
    pub tcp_config: TcpConfig,
    /// Endpoints supported by the server
    pub endpoints: Vec<ServerEndpoint>,
    /// Max array length in elements
    pub max_array_length: u32,
    /// Max string length in characters
    pub max_string_length: u32,
    /// Max bytestring length in bytes
    pub max_byte_string_length: u32,
}

/// What a configuration holds, as mathematical values.
pub struct ServerConfigView {
    pub application_name: Seq<char>,
    pub application_uri: Seq<char>,
    pub product_uri: Seq<char>,
    pub pki_dir: Seq<char>,
    pub discovery_service: bool,
    pub tcp_config: TcpConfigView,
    pub endpoints: Seq<ServerEndpointView>,
    pub max_array_length: u32,
    pub max_string_length: u32,
    pub max_byte_string_length: u32,
}

/// The endpoints of a list, each as mathematical values.
pub open spec fn endpoint_views(endpoints: Seq<ServerEndpoint>) -> Seq<ServerEndpointView> {
    Seq::new(endpoints.len(), |i: int| endpoints[i]@)
}

impl View for ServerConfig {
    type V = ServerConfigView;

    open spec fn view(&self) -> ServerConfigView {
        ServerConfigView {
            application_name: self.application_name@,
            application_uri: self.application_uri@,
            product_uri: self.product_uri@,
            pki_dir: self.pki_dir@,
            discovery_service: self.discovery_service,
            tcp_config: self.tcp_config@,
            endpoints: endpoint_views(self.endpoints@),
            max_array_length: self.max_array_length,
            max_string_length: self.max_string_length,
            max_byte_string_length: self.max_byte_string_length,
        }
    }
}

/// A rule that a configuration breaks.
#[derive(Clone, Copy, Debug, PartialEq, Eq, Structural)]
pub enum ConfigViolation {
    /// The configuration has no endpoint.
    NoEndpoints,
    /// The endpoint at `index` breaks the rule `violation`.
    Endpoint { index: usize, violation: EndpointViolation },
    /// The limit on array lengths is zero.
    ZeroMaxArrayLength,
    /// The limit on string lengths is zero.
    ZeroMaxStringLength,
    /// The limit on byte string lengths is zero.
    ZeroMaxByteStringLength,
}

/// The rules that the endpoint at `index` breaks, as rules that the
/// configuration breaks.
pub open spec fn at_endpoint(index: int, found: Seq<EndpointViolation>) -> Seq<ConfigViolation> {
    Seq::new(
        found.len(),
        |k: int| ConfigViolation::Endpoint { index: index as usize, violation: found[k] },
    )
}

/// For each endpoint of the list, the rules that it breaks.
pub open spec fn violations_by_endpoint(endpoints: Seq<ServerEndpointView>) -> Seq<
    Seq<ConfigViolation>,
> {
    Seq::new(endpoints.len(), |i: int| at_endpoint(i, endpoints[i].violations()))
}

/// The rules that the endpoints of the list break, endpoint after endpoint.
pub open spec fn endpoint_violations(endpoints: Seq<ServerEndpointView>) -> Seq<ConfigViolation> {
    violations_by_endpoint(endpoints).flatten()
}

/// A value is in one list followed by another exactly when it is in one of
/// the two.
proof fn lemma_concat_contains<T>(a: Seq<T>, b: Seq<T>, x: T)
    ensures
        (a + b).contains(x) <==> a.contains(x) || b.contains(x),
{
    if a.contains(x) {
        let i = choose|i: int| 0 <= i < a.len() && a[i] == x;
        assert((a + b)[i] == x);
    }
    if b.contains(x) {
        let i = choose|i: int| 0 <= i < b.len() && b[i] == x;
        assert((a + b)[a.len() + i] == x);
    }
    if (a + b).contains(x) {
        let i = choose|i: int| 0 <= i < (a + b).len() && (a + b)[i] == x;
        if i < a.len() {
            assert(a[i] == x);
        } else {
            assert(b[i - a.len()] == x);
        }
    }
}

/// What the endpoints of a list break, when one more endpoint is put at its
/// end, is what they broke before, followed by what the new endpoint breaks.
pub proof fn lemma_endpoint_violations_push(
    endpoints: Seq<ServerEndpointView>,
    last: ServerEndpointView,
)
    ensures
        endpoint_violations(endpoints.push(last)) == endpoint_violations(endpoints) + at_endpoint(
            endpoints.len() as int,
            last.violations(),
        ),
{
    let before = violations_by_endpoint(endpoints);
    let this = at_endpoint(endpoints.len() as int, last.violations());
    assert(violations_by_endpoint(endpoints.push(last)) =~= before.push(this));
    before.lemma_flatten_push(this);
}

/// The endpoints of a list break no rule exactly when each of them is valid.
pub proof fn lemma_endpoints_valid_iff_no_violations(endpoints: Seq<ServerEndpointView>)
    ensures
        endpoint_violations(endpoints).len() == 0 <==> forall|i: int|
            0 <= i < endpoints.len() ==> (#[trigger] endpoints[i]).valid(),
    decreases endpoints.len(),
{
    if endpoints.len() == 0 {
        assert(violations_by_endpoint(endpoints) =~= Seq::empty());
    } else {
        let init = endpoints.drop_last();
        let last = endpoints.last();
        assert(endpoints =~= init.push(last));
        lemma_endpoint_violations_push(init, last);
        lemma_endpoints_valid_iff_no_violations(init);
        last.lemma_valid_iff_no_violations();
        assert forall|i: int| 0 <= i < init.len() implies init[i] == endpoints[i] by {}
        if forall|i: int| 0 <= i < endpoints.len() ==> (#[trigger] endpoints[i]).valid() {
            assert(endpoints[endpoints.len() - 1].valid());
            assert forall|i: int| 0 <= i < init.len() implies (#[trigger] init[i]).valid() by {
                assert(endpoints[i].valid());
            }
        }
    }
}

/// What the endpoints of a list break holds exactly the rules that one of
/// them breaks, each with the place of that endpoint in the list.
pub proof fn lemma_endpoint_violations_contains(
    endpoints: Seq<ServerEndpointView>,
    found: ConfigViolation,
)
    requires
        endpoints.len() <= usize::MAX,
    ensures
        endpoint_violations(endpoints).contains(found) <==> (found matches ConfigViolation::Endpoint {
            index,
            violation,
        } && index < endpoints.len() && endpoints[index as int].violations().contains(violation)),
    decreases endpoints.len(),
{
    if endpoints.len() == 0 {
        assert(violations_by_endpoint(endpoints) =~= Seq::empty());
    } else {
        let init = endpoints.drop_last();
        let last = endpoints.last();
        let tail = at_endpoint(init.len() as int, last.violations());
        assert(endpoints =~= init.push(last));
        lemma_endpoint_violations_push(init, last);
        lemma_endpoint_violations_contains(init, found);
        lemma_concat_contains(endpoint_violations(init), tail, found);
        if tail.contains(found) {
            let k = choose|k: int| 0 <= k < tail.len() && tail[k] == found;
            assert(last.violations()[k] == found->violation);
        }
        if let ConfigViolation::Endpoint { index, violation } = found {
            if index == init.len() && last.violations().contains(violation) {
                let k = choose|k: int|
                    0 <= k < last.violations().len() && last.violations()[k] == violation;
                assert(tail[k] == found);
            }
        }
    }
}

impl ServerConfigView {
    /// A configuration keeps every rule exactly when the list of the rules
    /// it breaks is empty.
    pub proof fn lemma_valid_iff_no_violations(self)
        ensures
            self.valid() <==> self.violations().len() == 0,
    {
        lemma_endpoints_valid_iff_no_violations(self.endpoints);
    }

    /// The list of broken rules holds a rule exactly when the configuration
    /// breaks it; for a rule of an endpoint, when the endpoint at that place
    /// breaks it.
    pub proof fn lemma_violations_complete(self, found: ConfigViolation)
        requires
            self.endpoints.len() <= usize::MAX,
        ensures
            self.violations().contains(found) <==> match found {
                ConfigViolation::NoEndpoints => self.endpoints.len() == 0,
                ConfigViolation::Endpoint { index, violation } => index < self.endpoints.len()
                    && self.endpoints[index as int].violations().contains(violation),
                ConfigViolation::ZeroMaxArrayLength => self.max_array_length == 0,
                ConfigViolation::ZeroMaxStringLength => self.max_string_length == 0,
                ConfigViolation::ZeroMaxByteStringLength => self.max_byte_string_length == 0,
            },
    {
        let a = reported(self.endpoints.len() == 0, ConfigViolation::NoEndpoints);
        let b = endpoint_violations(self.endpoints);
        let c = reported(self.max_array_length == 0, ConfigViolation::ZeroMaxArrayLength);
        let d = reported(self.max_string_length == 0, ConfigViolation::ZeroMaxStringLength);
        let e = reported(self.max_byte_string_length == 0, ConfigViolation::ZeroMaxByteStringLength);
        lemma_endpoint_violations_contains(self.endpoints, found);
        lemma_concat_contains(a, b, found);
        lemma_concat_contains(a + b, c, found);
        lemma_concat_contains(a + b + c, d, found);
        lemma_concat_contains(a + b + c + d, e, found);
        assert(a.contains(found) <==> a.len() == 1 && found == ConfigViolation::NoEndpoints) by {
            if a.len() == 1 {
                assert(a[0] == ConfigViolation::NoEndpoints);
            }
        }
        assert(c.contains(found) <==> c.len() == 1 && found == ConfigViolation::ZeroMaxArrayLength)
            by {
            if c.len() == 1 {
                assert(c[0] == ConfigViolation::ZeroMaxArrayLength);
            }
        }
        assert(d.contains(found) <==> d.len() == 1 && found == ConfigViolation::ZeroMaxStringLength)
            by {
            if d.len() == 1 {
                assert(d[0] == ConfigViolation::ZeroMaxStringLength);
            }
        }
        assert(e.contains(found) <==> e.len() == 1 && found
            == ConfigViolation::ZeroMaxByteStringLength) by {
            if e.len() == 1 {
                assert(e[0] == ConfigViolation::ZeroMaxByteStringLength);
            }
        }
    }

    /// The configuration keeps every rule: it has an endpoint, each of its
    /// endpoints keeps every rule, and none of the three limits is zero.
    pub open spec fn valid(self) -> bool {
        &&& self.endpoints.len() > 0
        &&& forall|i: int| 0 <= i < self.endpoints.len() ==> (#[trigger] self.endpoints[i]).valid()
        &&& self.max_array_length != 0
        &&& self.max_string_length != 0
        &&& self.max_byte_string_length != 0
    }

    /// The rules that the configuration breaks, in the order in which they
    /// are checked: the empty list of endpoints, then what each endpoint
    /// breaks, then the three limits.
    pub open spec fn violations(self) -> Seq<ConfigViolation> {
        reported(self.endpoints.len() == 0, ConfigViolation::NoEndpoints) + endpoint_violations(
            self.endpoints,
        ) + reported(self.max_array_length == 0, ConfigViolation::ZeroMaxArrayLength) + reported(
            self.max_string_length == 0,
            ConfigViolation::ZeroMaxStringLength,
        ) + reported(self.max_byte_string_length == 0, ConfigViolation::ZeroMaxByteStringLength)
    }

    /// The configuration that `ServerConfig::default` makes of a list of
    /// endpoints.
    pub open spec fn spec_default(endpoints: Seq<ServerEndpointView>) -> ServerConfigView {
        ServerConfigView {
            application_name: "OPCUA-Rust"@,
            application_uri: "urn:"@ + "OPCUA-Rust"@,
            product_uri: "urn:"@ + "OPCUA-Rust"@,
            pki_dir: "pki"@,
            discovery_service: true,
            tcp_config: TcpConfigView {
                hello_timeout: DEFAULT_HELLO_TIMEOUT_SECONDS,
                host: "127.0.0.1"@,
                port: DEFAULT_OPC_UA_SERVER_PORT,
            },
            endpoints,
            max_array_length: DEFAULT_MAX_ARRAY_LENGTH,
            max_string_length: DEFAULT_MAX_STRING_LENGTH,
            max_byte_string_length: DEFAULT_MAX_BYTE_STRING_LENGTH,
        }
    }
}

impl ServerConfig {
    /// A configuration with the given endpoints and the default identity,
    /// transport and limits: it listens on the loopback address and the
    /// default port, and none of its limits is zero.
    pub fn default(endpoints: Vec<ServerEndpoint>) -> (config: ServerConfig)
        ensures
            config@ == ServerConfigView::spec_default(endpoint_views(endpoints@)),
            config.endpoints == endpoints,
    {
        let application_name = String::from_str("OPCUA-Rust");
        let application_uri = String::from_str("urn:").concat(application_name.as_str());
        let product_uri = String::from_str("urn:").concat(application_name.as_str());
        ServerConfig {
            application_name,
            application_uri,
            product_uri,
            discovery_service: true,
            pki_dir: String::from_str("pki"),
            tcp_config: TcpConfig {
                host: String::from_str("127.0.0.1"),
                port: DEFAULT_OPC_UA_SERVER_PORT,
                hello_timeout: DEFAULT_HELLO_TIMEOUT_SECONDS,
            },
            endpoints,
            max_array_length: DEFAULT_MAX_ARRAY_LENGTH,
            max_string_length: DEFAULT_MAX_STRING_LENGTH,
            max_byte_string_length: DEFAULT_MAX_BYTE_STRING_LENGTH,
        }
    }

    /// The default configuration for a server with no security that is open
    /// to anonymous clients. It keeps every rule.
    pub fn default_anonymous() -> (config: ServerConfig)
        ensures
            config@ == ServerConfigView::spec_default(
                seq![
                    ServerEndpointView {
                        name: "Default"@,
                        path: "/"@,
                        security_policy: "None"@,
                        security_mode: "None"@,
                        anonymous: Some(true),
                        user: None,
                        pass: None,
                    },
                ],
            ),
            config@.valid(),
    {
        let config = ServerConfig::default(vec![ServerEndpoint::default_anonymous()]);
        assert(config@.endpoints =~= seq![config.endpoints@[0]@]);
        config
    }

    /// The default configuration for a server with no security, for one
    /// user with a password.
    ///
    /// As it stands it breaks one rule: its endpoint is closed to anonymous
    /// clients, which an endpoint without security may not be.
    ///
    /// `pass` must be well-formed UTF-8 where a user name is given.
    pub fn default_user_pass(user: &str, pass: &[u8]) -> (config: ServerConfig)
        requires
            user@.len() > 0 ==> valid_utf8(pass@),
        ensures
            config@ == ServerConfigView::spec_default(
                seq![ServerEndpointView::spec_new_default(false, user@, pass@, "None"@, "None"@)],
            ),
            !config@.valid(),
    {
        let config = ServerConfig::default(vec![ServerEndpoint::default_user_pass(user, pass)]);
        assert(config@.endpoints =~= seq![config.endpoints@[0]@]);
        proof {
            config@.endpoints[0].lemma_valid_iff_no_violations();
        }
        config
    }

    /// A configuration for sample code that wants everything available: no
    /// security, anonymous access and a built-in user. It keeps every rule,
    /// and is not for production use.
    pub fn default_sample() -> (config: ServerConfig)
        ensures
            config@ == ServerConfigView::spec_default(
                seq![
                    ServerEndpointView {
                        name: "Default"@,
                        path: "/"@,
                        security_policy: "None"@,
                        security_mode: "None"@,
                        anonymous: Some(true),
                        user: Some("sample"@),
                        pass: Some("sample1"@),
                    },
                ],
            ),
            config@.valid(),
    {
        let config = ServerConfig::default(vec![ServerEndpoint::default_sample()]);
        assert(config@.endpoints =~= seq![config.endpoints@[0]@]);
        config
    }

    /// The rules that the configuration breaks: every one of them, not the
    /// first only, in the order in which they are checked.
    pub fn violations(&self) -> (found: Vec<ConfigViolation>)
        ensures
            found@ == self@.violations(),
    {
        let mut found: Vec<ConfigViolation> = Vec::new();
        if self.endpoints.is_empty() {
            found.push(ConfigViolation::NoEndpoints);
        }
        let ghost head = found@;
        let ghost views = self@.endpoints;
        let mut i: usize = 0;
        assert(violations_by_endpoint(views.take(0)) =~= Seq::empty());
        while i < self.endpoints.len()
            invariant
                i <= self.endpoints.len(),
                views == endpoint_views(self.endpoints@),
                found@ == head + endpoint_violations(views.take(i as int)),
            decreases self.endpoints.len() - i,
        {
            let broken = self.endpoints[i].violations();
            let ghost before = found@;
            let mut k: usize = 0;
            while k < broken.len()
                invariant
                    k <= broken.len(),
                    found@ == before + at_endpoint(i as int, broken@.take(k as int)),
                decreases broken.len() - k,
            {
                found.push(ConfigViolation::Endpoint { index: i, violation: broken[k] });
                k += 1;
                assert(at_endpoint(i as int, broken@.take(k as int)) =~= at_endpoint(
                    i as int,
                    broken@.take(k - 1),
                ).push(ConfigViolation::Endpoint { index: i, violation: broken@[k - 1] }));
            }
            proof {
                assert(broken@.take(k as int) =~= broken@);
                assert(views.take(i + 1) =~= views.take(i as int).push(views[i as int]));
                lemma_endpoint_violations_push(views.take(i as int), views[i as int]);
            }
            i += 1;
        }
        assert(views.take(i as int) =~= views);
        if self.max_array_length == 0 {
            found.push(ConfigViolation::ZeroMaxArrayLength);
        }
        if self.max_string_length == 0 {
            found.push(ConfigViolation::ZeroMaxStringLength);
        }
        if self.max_byte_string_length == 0 {
            found.push(ConfigViolation::ZeroMaxByteStringLength);
        }
        found
    }

    /// Whether the configuration keeps every rule: it has an endpoint, each
    /// of its endpoints is valid, and none of the three limits is zero.
    pub fn is_valid(&self) -> (valid: bool)
        ensures
            valid == self@.valid(),
            valid == (self@.violations().len() == 0),
            self@.endpoints.len() == 0 ==> !valid,
            self@.max_array_length == 0 || self@.max_string_length == 0
                || self@.max_byte_string_length == 0 ==> !valid,
    {
        let mut valid = true;
        if self.endpoints.is_empty() {
            valid = false;
        }
        let ghost views = self@.endpoints;
        let mut i: usize = 0;
        while i < self.endpoints.len()
            invariant
                i <= self.endpoints.len(),
                views == endpoint_views(self.endpoints@),
                valid == (views.len() > 0 && forall|j: int|
                    0 <= j < i ==> (#[trigger] views[j]).valid()),
            decreases self.endpoints.len() - i,
        {
            assert(views[i as int] == self.endpoints@[i as int]@);
            if !self.endpoints[i].is_valid() {
                valid = false;
            }
            i += 1;
        }
        if self.max_array_length == 0 {
            valid = false;
        }
        if self.max_string_length == 0 {
            valid = false;
        }
        if self.max_byte_string_length == 0 {
            valid = false;
        }
        proof {
            self@.lemma_valid_iff_no_violations();
        }
        valid
    }

    /// The message security mode of the server.
    pub fn message_security_mode() -> (mode: MessageSecurityMode)
        ensures
            mode == MessageSecurityMode::NoSecurity,
    {
        MessageSecurityMode::NoSecurity
    }
}

impl PartialEq for TcpConfig {
    /// Two transport configurations are equal when all their fields are.
    fn eq(&self, other: &TcpConfig) -> (same: bool) {
        self.hello_timeout == other.hello_timeout && str_eq(self.host.as_str(), other.host.as_str())
            && self.port == other.port
    }
}

impl PartialEqSpecImpl for TcpConfig {
    open spec fn obeys_eq_spec() -> bool {
        true
    }

    open spec fn eq_spec(&self, other: &TcpConfig) -> bool {
        self@ == other@
    }
}

impl Clone for TcpConfig {
    fn clone(&self) -> (copy: TcpConfig)
        ensures
            copy@ == self@,
    {
        TcpConfig { hello_timeout: self.hello_timeout, host: self.host.clone(), port: self.port }
    }
}

impl PartialEq for ServerConfig {
    /// Two configurations are equal when all their fields are, the
    /// endpoints one by one and in the same order.
    fn eq(&self, other: &ServerConfig) -> (same: bool) {
        let rest_same = str_eq(self.application_name.as_str(), other.application_name.as_str())
            && str_eq(self.application_uri.as_str(), other.application_uri.as_str())
            && str_eq(self.product_uri.as_str(), other.product_uri.as_str())
            && str_eq(self.pki_dir.as_str(), other.pki_dir.as_str())
            && self.discovery_service == other.discovery_service
            && self.tcp_config.eq(&other.tcp_config)
            && self.max_array_length == other.max_array_length
            && self.max_string_length == other.max_string_length
            && self.max_byte_string_length == other.max_byte_string_length;
        if !rest_same {
            return false;
        }
        if self.endpoints.len() != other.endpoints.len() {
            assert(self@.endpoints.len() != other@.endpoints.len());
            return false;
        }
        let mut i: usize = 0;
        while i < self.endpoints.len()
            invariant
                i <= self.endpoints.len(),
                self.endpoints.len() == other.endpoints.len(),
                forall|j: int| 0 <= j < i ==> self@.endpoints[j] == other@.endpoints[j],
            decreases self.endpoints.len() - i,
        {
            if !self.endpoints[i].eq(&other.endpoints[i]) {
                assert(self@.endpoints[i as int] != other@.endpoints[i as int]);
                return false;
            }
            i += 1;
        }
        assert(self@.endpoints =~= other@.endpoints);
        true
    }
}

impl PartialEqSpecImpl for ServerConfig {
    open spec fn obeys_eq_spec() -> bool {
        true
    }

    open spec fn eq_spec(&self, other: &ServerConfig) -> bool {
        self@ == other@
    }
}

impl Clone for ServerConfig {
    fn clone(&self) -> (copy: ServerConfig)
        ensures
            copy@ == self@,
    {
        let mut endpoints: Vec<ServerEndpoint> = Vec::new();
        let mut i: usize = 0;
        while i < self.endpoints.len()
            invariant
                i <= self.endpoints.len(),
                endpoints.len() == i,
                forall|j: int| 0 <= j < i ==> endpoints@[j]@ == self.endpoints@[j]@,
            decreases self.endpoints.len() - i,
        {
            endpoints.push(self.endpoints[i].clone());
            i += 1;
        }
        assert(endpoint_views(endpoints@) =~= endpoint_views(self.endpoints@));
        ServerConfig {
            application_name: self.application_name.clone(),
            application_uri: self.application_uri.clone(),
            product_uri: self.product_uri.clone(),
            pki_dir: self.pki_dir.clone(),
            discovery_service: self.discovery_service,
            tcp_config: self.tcp_config.clone(),
            endpoints,
            max_array_length: self.max_array_length,
            max_string_length: self.max_string_length,
            max_byte_string_length: self.max_byte_string_length,
        }
    }
}

} // verus!
