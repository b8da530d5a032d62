//! The static catalog of wire protocols the gateway can bridge.

use vstd::prelude::*;

verus! {

/// One catalog entry. Latency is in microseconds and throughput in
/// kilobits per second, so the characteristics stay exact integers; the
/// service boundary renders them in milliseconds and megabits.
pub struct ProtocolInfo {
    pub name: String,
    pub description: String,
    pub latency_us: u64,
    pub throughput_kbps: u64,
}

/// The immutable protocol registry, fixed when the gateway starts.
pub struct ProtocolRegistry {
    entries: Vec<ProtocolInfo>,
}

impl ProtocolRegistry {
    /// The names the registry lists, in catalog order.
    pub closed spec fn names(self) -> Seq<Seq<char>> {
        self.entries@.map_values(|p: ProtocolInfo| p.name@)
    }

    /// Whether `name` is a protocol this registry lists.
    pub open spec fn lists(self, name: Seq<char>) -> bool {
        exists|i: int| 0 <= i < self.names().len() && self.names()[i] == name
    }

    pub closed spec fn spec_entries(self) -> Seq<ProtocolInfo> {
        self.entries@
    }

    /// The default catalog: the three protocols the gateway ships with.
    /// Names are pairwise distinct, as the registry invariant asks.
    pub fn with_default_entries() -> (r: ProtocolRegistry)
        ensures
            r.names() =~= seq!["sdf-stream"@, "mqtt-bridge"@, "grpc-relay"@],
            r.spec_entries().len() == 3,
            r.spec_entries()[0].latency_us == 8000,
            r.spec_entries()[0].throughput_kbps == 100_000,
            r.spec_entries()[1].latency_us == 15_000,
            r.spec_entries()[1].throughput_kbps == 10_000,
            r.spec_entries()[2].latency_us == 5000,
            r.spec_entries()[2].throughput_kbps == 500_000,
            forall|i: int, j: int|
                0 <= i < j < r.names().len() ==> r.names()[i] != r.names()[j],
    {
        let mut entries: Vec<ProtocolInfo> = Vec::new();
        entries.push(ProtocolInfo {
            name: String::from_str("sdf-stream"),
            description: String::from_str("SDF delta streaming for spatial data sync"),
            latency_us: 8000,
            throughput_kbps: 100_000,
        });
        entries.push(ProtocolInfo {
            name: String::from_str("mqtt-bridge"),
            description: String::from_str("MQTT to SDF protocol bridge for IoT devices"),
            latency_us: 15_000,
            throughput_kbps: 10_000,
        });
        entries.push(ProtocolInfo {
            name: String::from_str("grpc-relay"),
            description: String::from_str("gRPC relay for microservice communication"),
            latency_us: 5000,
            throughput_kbps: 500_000,
        });
        let r = ProtocolRegistry { entries };
        proof {
            reveal_strlit("sdf-stream");
            reveal_strlit("mqtt-bridge");
            reveal_strlit("grpc-relay");
            assert(r.names() =~= seq!["sdf-stream"@, "mqtt-bridge"@, "grpc-relay"@]);
            assert("sdf-stream"@.len() == 10);
            assert("mqtt-bridge"@.len() == 11);
            assert("sdf-stream"@[0] == 's');
            assert("grpc-relay"@[0] == 'g');
            assert("mqtt-bridge"@[0] == 'm');
        }
        r
    }

    /// How many protocols the registry lists.
    pub fn len(&self) -> (r: usize)
        ensures
            r == self.spec_entries().len(),
    {
        self.entries.len()
    }

    /// The entry at a catalog position, for listing the catalog.
    pub fn entry_at(&self, i: usize) -> (r: &ProtocolInfo)
        requires
            i < self.spec_entries().len(),
        ensures
            r == self.spec_entries()[i as int],
    {
        &self.entries[i]
    }

    /// Whether `name` is a protocol this registry lists.
    pub fn contains(&self, name: &str) -> (r: bool)
        ensures
            r == self.lists(name@),
    {
        let key = name.to_owned();
        let n = self.entries.len();
        let mut i: usize = 0;
        while i < n
            invariant
                n == self.spec_entries().len(),
                i <= n,
                key@ == name@,
                forall|k: int| 0 <= k < i ==> self.names()[k] != name@,
            decreases n - i,
        {
            if self.entries[i].name == key {
                assert(self.names()[i as int] == name@);
                return true;
            }
            i += 1;
        }
        false
    }

    /// Looks a protocol up by name: `Some` exactly when the registry lists
    /// it, and then the entry returned carries that name.
    pub fn lookup(&self, name: &str) -> (r: Option<&ProtocolInfo>)
        ensures
            r is Some <==> self.lists(name@),
            r matches Some(p) ==> p.name@ == name@ && (exists|i: int|
                0 <= i < self.spec_entries().len() && self.spec_entries()[i] == *p),
    {
        let key = name.to_owned();
        let n = self.entries.len();
        let mut i: usize = 0;
        while i < n
            invariant
                n == self.spec_entries().len(),
                i <= n,
                key@ == name@,
                forall|k: int| 0 <= k < i ==> self.names()[k] != name@,
            decreases n - i,
        {
            if self.entries[i].name == key {
                assert(self.names()[i as int] == name@);
                return Some(&self.entries[i]);
            }
            i += 1;
        }
        None
    }
}

} // verus!
