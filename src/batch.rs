use vstd::prelude::*;
use crate::stats::{
    first_view, in_range_view, is_first_view, is_in_range_view, is_mean_view, mean_view,
    whole_rows, RawMean, ScaledBits,
};
use crate::value::ChannelValue;

verus! {

/// One transferred block of samples: row-major, one column per channel of the
/// catalog, raw and scaled samples side by side.
#[derive(Debug, Clone)]
pub struct Data {
    pub channels: Vec<String>,
    pub raw_data: Vec<i32>,
    pub scaled_data: Vec<ScaledBits>,
}

impl Data {
    /// Raw samples of the very first measurement.
    pub fn get_first_raw(&self) -> (r: Vec<ChannelValue<i32>>)
        requires
            self.channels@.len() <= self.raw_data@.len(),
        ensures
            is_first_view(r@, self.raw_data@, self.channels@),
    {
        first_view(&self.raw_data, &self.channels)
    }

    /// Exact mean of the in-range raw samples, for every channel.
    pub fn get_mean_raw(&self) -> (r: Vec<ChannelValue<RawMean>>)
        requires
            whole_rows(self.raw_data@.len(), self.channels@.len()),
        ensures
            is_mean_view(r@, self.raw_data@, self.channels@),
    {
        mean_view(&self.raw_data, &self.channels)
    }

    /// Scaled samples of the very first measurement.
    pub fn get_first_scaled(&self) -> (r: Vec<ChannelValue<ScaledBits>>)
        requires
            self.channels@.len() <= self.scaled_data@.len(),
        ensures
            is_first_view(r@, self.scaled_data@, self.channels@),
    {
        first_view(&self.scaled_data, &self.channels)
    }

    /// The in-range scaled samples of every channel, in row order: what its mean
    /// is taken over.
    pub fn get_in_range_scaled(&self) -> (r: Vec<ChannelValue<Vec<ScaledBits>>>)
        requires
            whole_rows(self.scaled_data@.len(), self.channels@.len()),
        ensures
            is_in_range_view(r@, self.scaled_data@, self.channels@),
    {
        in_range_view(&self.scaled_data, &self.channels)
    }
}

} // verus!
