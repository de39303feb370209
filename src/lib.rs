//! The variable browser of a waveform viewer: name filters, the numeric-aware
//! ordering of the variable list, and the resolution of the active scope into
//! the variables, parameters, streams and generators that the panel shows.
pub mod hierarchy;
pub mod matching;
pub mod scope;
pub mod variable_filter;
