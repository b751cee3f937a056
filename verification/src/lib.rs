//! Sensor synchronization core: an append-only timeseries model, a sensor
//! registry, the event-dispatch state machine that owns all application view
//! state, and the sync-worker state machine that turns queued commands into
//! remote-service actions.

pub mod central;
pub mod data;
pub mod endpoint;
pub mod event_loop;
pub mod graph;
pub mod index_map;
pub mod sensor_name_filter;
pub mod sensor_obj;
