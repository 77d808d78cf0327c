use vstd::prelude::*;

verus! {

/// A filter-based indexing setup: an event name and up to three lists of
/// values for its indexed arguments.
pub struct FilterDetails {
    pub event_name: String,
    pub indexed_1: Option<Vec<String>>,
    pub indexed_2: Option<Vec<String>>,
    pub indexed_3: Option<Vec<String>>,
}

/// A factory-based indexing setup.
pub struct FactoryDetails {
    pub address: String,
    pub event_name: String,
    pub parameter_name: String,
    pub abi: String,
}

/// How a contract is found on one network.
pub enum IndexingContractSetup {
    Address(String),
    Filter(FilterDetails),
    Factory(FactoryDetails),
}

/// A contract's setup on one network.
pub struct ContractDetails {
    pub network: String,
    pub setup: IndexingContractSetup,
    pub start_block: Option<u64>,
    pub end_block: Option<u64>,
    pub polling_every: Option<u64>,
}

impl ContractDetails {
    pub fn indexing_contract_setup(&self) -> (r: &IndexingContractSetup)
        ensures
            *r == self.setup,
    {
        &self.setup
    }
}

/// A contract to index: its name, its setups per network, the path of its
/// interface schema and the generation flags.
pub struct Contract {
    pub name: String,
    pub details: Vec<ContractDetails>,
    pub abi: String,
    pub include_events: Option<Vec<String>>,
    pub reorg_safe_distance: bool,
    pub generate_csv: bool,
}

/// Where flat files go.
pub struct CsvDetails {
    pub path: String,
}

/// Which storage sinks are enabled.
pub struct Storage {
    pub postgres: bool,
    pub csv: Option<CsvDetails>,
}

impl Storage {
    pub fn postgres_enabled(&self) -> (r: bool)
        ensures
            r == self.postgres,
    {
        self.postgres
    }

    pub fn csv_enabled(&self) -> (r: bool)
        ensures
            r == self.csv is Some,
    {
        self.csv.is_some()
    }
}

} // verus!
