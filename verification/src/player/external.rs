//! A player window driven by another process.  The placeholder answers
//! queries with permanent values instead of aborting.

use vstd::prelude::*;

use crate::config::Config;
use crate::error::Error;
use crate::player::PlayerBase;

verus! {

pub struct External {}

impl PlayerBase for External {
    open spec fn paused_spec(&self) -> bool {
        true
    }

    fn new(config: &Config) -> (r: Result<External, Error>)
        ensures
            r is Ok,
    {
        Ok(External {  })
    }

    fn pause(&mut self) {
    }

    fn is_paused(&self) -> (r: bool) {
        true
    }

    fn position(&self) -> (r: u32)
        ensures
            r == 123,
    {
        123
    }

    fn seek(&mut self) {
    }

    fn start_video(&mut self) {
    }
}

} // verus!
