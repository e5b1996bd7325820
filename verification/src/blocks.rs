pub mod constants;
pub mod enhanced_packet;
pub mod interface_description;
pub mod interface_stats;
pub mod section_header;
