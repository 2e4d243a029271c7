use vstd::prelude::*;
use crate::consumer::ConsumerType;

verus! {

/// The command line, as its parser hands it over.
#[derive(Debug)]
pub struct Args {
    pub flag_devicemap: Option<String>,
    pub flag_btdevice: String,
    pub flag_manual: bool,
    pub flag_interval: u64,
    pub flag_consumer: ConsumerType,
    pub flag_list: bool,
    pub arg_device: Vec<String>,
}

} // verus!
