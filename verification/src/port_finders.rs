pub mod os_query_port_finder;
pub mod scanning_port_finder;
pub mod scanning_with_fallback_port_finder;
