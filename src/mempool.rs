//! Which observed transactions are handed on to the detector.
use vstd::prelude::*;
use crate::address::{address_to_base58, base58_of_address};
use crate::config::Config;
use crate::opportunity::dex_for_program;
use crate::types::Transaction;

verus! {

/// Capacity of the queue between the network observer and the control loop;
/// when it is full, newer transactions are dropped rather than waited on.
pub const QUEUE_CAPACITY: usize = 1000;

pub struct MempoolMonitor {
    pub config: Config,
}

impl MempoolMonitor {
    pub fn new(config: Config) -> (r: Self)
        ensures
            r.config == config,
    {
        MempoolMonitor { config }
    }

    /// Whether `transaction` belongs to an enabled exchange, and so is queued.
    pub fn accepts(&self, transaction: &Transaction) -> (r: bool)
        ensures
            r == dex_for_program(self.config.dex, base58_of_address(transaction.program_id.bytes@)).is_some(),
    {
        let program_id = address_to_base58(&transaction.program_id);
        let dex = &self.config.dex;
        (dex.raydium.enabled && program_id == dex.raydium.program_id) || (dex.orca.enabled && program_id
            == dex.orca.program_id) || (dex.jupiter.enabled && program_id == dex.jupiter.program_id)
    }
}

} // verus!
