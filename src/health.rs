use vstd::prelude::*;

verus! {

/// Seconds of uptime that the health report gives.
pub const REPORTED_UPTIME_SECS: u64 = 3600;

/// The service's report on its own health.
#[derive(Debug)]
pub struct HealthCheck {
    /// Overall status.
    pub status: String,
    /// Version of the running service.
    pub version: String,
    /// Seconds since start.
    pub uptime: u64,
    /// Status of each dependency, by name, in the order reported; each name
    /// occurs once.
    pub services: Vec<(String, String)>,
}

/// The names of the dependencies that the report covers, in order.
pub open spec fn dependency_names() -> Seq<Seq<char>> {
    seq!["database"@, "redis"@, "ai_services"@]
}

impl HealthCheck {
    /// Each dependency is named once.
    pub open spec fn wf(&self) -> bool {
        forall|i: int, j: int|
            0 <= i < j < self.services@.len() ==> (#[trigger] self.services@[i]).0@
                != (#[trigger] self.services@[j]).0@
    }

    /// The report is healthy overall and covers exactly the three
    /// dependencies, each healthy.
    pub open spec fn all_healthy(&self) -> bool {
        &&& self.status@ == "healthy"@
        &&& self.services@.len() == 3
        &&& forall|i: int|
            0 <= i < 3 ==> (#[trigger] self.services@[i]).0@ == dependency_names()[i]
                && self.services@[i].1@ == "healthy"@
    }

    /// The health report of the service at version `version`.
    pub fn report(version: String) -> (r: HealthCheck)
        ensures
            r.wf(),
            r.all_healthy(),
            r.version == version,
            r.uptime == REPORTED_UPTIME_SECS,
    {
        let services = vec![
            (String::from_str("database"), String::from_str("healthy")),
            (String::from_str("redis"), String::from_str("healthy")),
            (String::from_str("ai_services"), String::from_str("healthy")),
        ];
        proof {
            reveal_strlit("database");
            reveal_strlit("redis");
            reveal_strlit("ai_services");
        }
        let r = HealthCheck {
            status: String::from_str("healthy"),
            version,
            uptime: REPORTED_UPTIME_SECS,
            services,
        };
        assert(r.services@[0].0@.len() == 8 && r.services@[1].0@.len() == 5);
        assert(r.services@[2].0@.len() == 11);
        r
    }
}

} // verus!
