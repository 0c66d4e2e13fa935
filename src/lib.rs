pub mod match_parser;

pub use match_parser::{calculate_position, get_puuid_to_champion_mapping, Participant, PuuidToChampionMapping};
