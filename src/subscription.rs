//! The subscription specification and the builder that validates it.

use vstd::prelude::*;
use crate::schema::{BlockTag, RpcServices, Topic};

verus! {

broadcast use vstd::string::to_string_from_display_ensures_for_str;

/// The budget paid for one poll when the caller sets none.
pub const DEFAULT_CYCLES: u128 = 30_000_000_000;

/// How many providers must agree when the caller sets no other number.
pub const DEFAULT_MIN_AGREEMENT: u64 = 1;

/// What to poll, how often, from which providers, and at what cost.
#[derive(Clone, Debug, PartialEq, Eq)]
pub struct EthGetLogs {
    pub address: String,
    pub from_block: BlockTag,
    pub to_block: Option<BlockTag>,
    pub topics: Option<Vec<Topic>>,
    /// Seconds between two polls.
    pub interval: u64,
    pub rpc_services: RpcServices,
    /// The budget paid for each poll.
    pub cycles: u128,
    /// How many providers must give the same answer.
    pub min_agreement: u64,
}

/// Why a specification could not be built.
#[derive(Clone, Debug, PartialEq, Eq)]
pub enum EthGetLogsBuilderError {
    /// The named field was never set.
    RequiredFieldMissing(&'static str),
    /// The named field was set to a value it cannot take: a zero interval.
    InvalidField(&'static str),
}

/// Collects the fields of a specification; each setter overwrites its field.
#[derive(Clone, Debug, PartialEq, Eq)]
pub struct EthGetLogsBuilder {
    pub address: Option<String>,
    pub from_block: Option<BlockTag>,
    pub to_block: Option<BlockTag>,
    pub topics: Option<Vec<Topic>>,
    pub interval: Option<u64>,
    pub rpc_services: Option<RpcServices>,
    pub cycles: Option<u128>,
    pub min_agreement: Option<u64>,
}

/// The builder with no field set.
pub open spec fn empty_builder() -> EthGetLogsBuilder {
    EthGetLogsBuilder {
        address: None,
        from_block: None,
        to_block: None,
        topics: None,
        interval: None,
        rpc_services: None,
        cycles: None,
        min_agreement: None,
    }
}

/// The first required field that `b` leaves unset, if any.
pub open spec fn missing_field(b: EthGetLogsBuilder) -> Option<&'static str> {
    if b.from_block is None {
        Some("from_block")
    } else if b.interval is None {
        Some("interval")
    } else if b.rpc_services is None {
        Some("rpc_services")
    } else if b.address is None {
        Some("address")
    } else {
        None
    }
}

/// The specification that `b` builds when no required field is missing.
pub open spec fn spec_of(b: EthGetLogsBuilder) -> EthGetLogs {
    EthGetLogs {
        address: b.address->Some_0,
        from_block: b.from_block->Some_0,
        to_block: b.to_block,
        topics: b.topics,
        interval: b.interval->Some_0,
        rpc_services: b.rpc_services->Some_0,
        cycles: match b.cycles {
            Some(c) => c,
            None => DEFAULT_CYCLES,
        },
        min_agreement: match b.min_agreement {
            Some(m) => m,
            None => DEFAULT_MIN_AGREEMENT,
        },
    }
}

/// What building from `b` gives: the first missing field; else, with every
/// required field present, a zero interval; else the specification.
pub open spec fn build_result(b: EthGetLogsBuilder) -> Result<EthGetLogs, EthGetLogsBuilderError> {
    match missing_field(b) {
        Some(name) => Err(EthGetLogsBuilderError::RequiredFieldMissing(name)),
        None => if b.interval == Some(0u64) {
            Err(EthGetLogsBuilderError::InvalidField("interval"))
        } else {
            Ok(spec_of(b))
        },
    }
}

/// A builder that leaves the first block, the interval or the providers unset
/// fails to build, and the error names the first such field, checked in that
/// order.
pub proof fn lemma_missing_required_field_fails(b: EthGetLogsBuilder)
    requires
        b.from_block is None || b.interval is None || b.rpc_services is None,
    ensures
        build_result(b) is Err,
        b.from_block is None ==> build_result(b) == Err::<EthGetLogs, EthGetLogsBuilderError>(
            EthGetLogsBuilderError::RequiredFieldMissing("from_block"),
        ),
        b.from_block is Some && b.interval is None ==> build_result(b) == Err::<
            EthGetLogs,
            EthGetLogsBuilderError,
        >(EthGetLogsBuilderError::RequiredFieldMissing("interval")),
        b.from_block is Some && b.interval is Some && b.rpc_services is None ==> build_result(b)
            == Err::<EthGetLogs, EthGetLogsBuilderError>(
            EthGetLogsBuilderError::RequiredFieldMissing("rpc_services"),
        ),
{
}

/// A builder with every required field set, and an interval above zero,
/// builds, keeps each field it was given, and pays the default budget exactly
/// when none was set.
pub proof fn lemma_complete_builder_succeeds(b: EthGetLogsBuilder)
    requires
        b.address is Some,
        b.from_block is Some,
        b.interval is Some,
        b.interval->Some_0 > 0,
        b.rpc_services is Some,
    ensures
        build_result(b) is Ok,
        build_result(b)->Ok_0.address == b.address->Some_0,
        build_result(b)->Ok_0.from_block == b.from_block->Some_0,
        build_result(b)->Ok_0.to_block == b.to_block,
        build_result(b)->Ok_0.topics == b.topics,
        build_result(b)->Ok_0.interval == b.interval->Some_0,
        build_result(b)->Ok_0.rpc_services == b.rpc_services->Some_0,
        b.cycles is None ==> build_result(b)->Ok_0.cycles == DEFAULT_CYCLES,
        b.cycles is Some ==> build_result(b)->Ok_0.cycles == b.cycles->Some_0,
{
}

/// A zero interval never builds: with every required field present, the
/// error names the interval; every specification that builds has an interval
/// above zero.
pub proof fn lemma_zero_interval_rejected(b: EthGetLogsBuilder)
    ensures
        b.address is Some && b.from_block is Some && b.rpc_services is Some && b.interval == Some(
            0u64,
        ) ==> build_result(b) == Err::<
            EthGetLogs,
            EthGetLogsBuilderError,
        >(EthGetLogsBuilderError::InvalidField("interval")),
        build_result(b) is Ok ==> build_result(b)->Ok_0.interval > 0,
{
}

impl EthGetLogs {
    /// A builder with no field set.
    pub fn builder() -> (r: EthGetLogsBuilder)
        ensures
            r == empty_builder(),
    {
        EthGetLogsBuilder {
            address: None,
            from_block: None,
            to_block: None,
            topics: None,
            interval: None,
            rpc_services: None,
            cycles: None,
            min_agreement: None,
        }
    }
}

impl EthGetLogsBuilder {
    /// Sets the address whose logs are polled.
    pub fn address(self, address: &str) -> (r: Self)
        ensures
            r.address is Some,
            r.address->Some_0@ == address@,
            r.from_block == self.from_block,
            r.to_block == self.to_block,
            r.topics == self.topics,
            r.interval == self.interval,
            r.rpc_services == self.rpc_services,
            r.cycles == self.cycles,
            r.min_agreement == self.min_agreement,
    {
        let mut b = self;
        b.address = Some(address.to_string());
        b
    }

    /// Sets the first block polled.
    pub fn from_block(self, block: BlockTag) -> (r: Self)
        ensures
            r == (EthGetLogsBuilder { from_block: Some(block), ..self }),
    {
        let mut b = self;
        b.from_block = Some(block);
        b
    }

    /// Sets the last block polled.
    pub fn to_block(self, block: BlockTag) -> (r: Self)
        ensures
            r == (EthGetLogsBuilder { to_block: Some(block), ..self }),
    {
        let mut b = self;
        b.to_block = Some(block);
        b
    }

    /// Sets the topic filter.
    pub fn topics(self, topics: Vec<Topic>) -> (r: Self)
        ensures
            r == (EthGetLogsBuilder { topics: Some(topics), ..self }),
    {
        let mut b = self;
        b.topics = Some(topics);
        b
    }

    /// Sets the number of seconds between two polls.
    pub fn interval(self, interval: u64) -> (r: Self)
        ensures
            r == (EthGetLogsBuilder { interval: Some(interval), ..self }),
    {
        let mut b = self;
        b.interval = Some(interval);
        b
    }

    /// Sets the providers that each poll asks.
    pub fn rpc_services(self, rpc_services: RpcServices) -> (r: Self)
        ensures
            r == (EthGetLogsBuilder { rpc_services: Some(rpc_services), ..self }),
    {
        let mut b = self;
        b.rpc_services = Some(rpc_services);
        b
    }

    /// Sets the budget paid for each poll.
    pub fn cycles(self, cycles: u128) -> (r: Self)
        ensures
            r == (EthGetLogsBuilder { cycles: Some(cycles), ..self }),
    {
        let mut b = self;
        b.cycles = Some(cycles);
        b
    }

    /// Sets how many providers must give the same answer.
    pub fn min_agreement(self, min_agreement: u64) -> (r: Self)
        ensures
            r == (EthGetLogsBuilder { min_agreement: Some(min_agreement), ..self }),
    {
        let mut b = self;
        b.min_agreement = Some(min_agreement);
        b
    }

    /// Checks that the required fields are present, then that the interval
    /// is above zero, and makes the specification, filling the
    /// budget and the agreement count with their defaults where unset.
    pub fn build(self) -> (r: Result<EthGetLogs, EthGetLogsBuilderError>)
        ensures
            r == build_result(self),
            r is Ok ==> r->Ok_0.interval > 0,
    {
        if self.from_block.is_none() {
            return Err(EthGetLogsBuilderError::RequiredFieldMissing("from_block"));
        }
        if self.interval.is_none() {
            return Err(EthGetLogsBuilderError::RequiredFieldMissing("interval"));
        }
        if self.rpc_services.is_none() {
            return Err(EthGetLogsBuilderError::RequiredFieldMissing("rpc_services"));
        }
        match (self.address, self.from_block, self.interval, self.rpc_services) {
            (Some(address), Some(from_block), Some(interval), Some(rpc_services)) => {
                if interval == 0 {
                    return Err(EthGetLogsBuilderError::InvalidField("interval"));
                }
                let cycles = match self.cycles {
                    Some(c) => c,
                    None => DEFAULT_CYCLES,
                };
                let min_agreement = match self.min_agreement {
                    Some(m) => m,
                    None => DEFAULT_MIN_AGREEMENT,
                };
                Ok(
                    EthGetLogs {
                        address,
                        from_block,
                        to_block: self.to_block,
                        topics: self.topics,
                        interval,
                        rpc_services,
                        cycles,
                        min_agreement,
                    },
                )
            },
            _ => Err(EthGetLogsBuilderError::RequiredFieldMissing("address")),
        }
    }
}

impl Default for EthGetLogsBuilder {
    fn default() -> (r: Self)
        ensures
            r == empty_builder(),
    {
        EthGetLogs::builder()
    }
}

} // verus!
