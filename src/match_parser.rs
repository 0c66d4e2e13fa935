use vstd::prelude::*;

verus! {

/// One participant of a match, as the match-history provider reports it.
pub struct Participant {
    /// Opaque player identifier, unique within a match.
    pub puuid: String,
    /// The champion the participant played.
    pub champion_name: String,
    /// The raw positional label (`TOP`, `JUNGLE`, `MIDDLE`, `BOTTOM`, `UTILITY`, or anything else).
    pub individual_position: String,
}

/// A participant's player identifier, champion and normalized role.
#[derive(Debug, PartialEq, Eq)]
pub struct PuuidToChampionMapping {
    pub puuid: String,
    pub champion_name: String,
    pub position: String,
}

impl Participant {
    pub fn new(puuid: String, champion_name: String, individual_position: String) -> (r: Self)
        ensures
            r.puuid@ == puuid@,
            r.champion_name@ == champion_name@,
            r.individual_position@ == individual_position@,
    {
        Participant { puuid, champion_name, individual_position }
    }
}

impl PuuidToChampionMapping {
    pub fn new(puuid: String, champion_name: String, position: String) -> (r: Self)
        ensures
            r.puuid@ == puuid@,
            r.champion_name@ == champion_name@,
            r.position@ == position@,
    {
        PuuidToChampionMapping { puuid, champion_name, position }
    }
}

/// The role label for a raw positional label: `"UTILITY"` is renamed to
/// `"SUPPORT"`, every other label is kept as it is.
pub open spec fn role_of(individual_position: Seq<char>) -> Seq<char> {
    if individual_position == "UTILITY"@ {
        "SUPPORT"@
    } else {
        individual_position
    }
}

/// Normalizes a raw positional label into a role label.
pub fn calculate_position(individual_position: &str) -> (r: String)
    ensures
        r@ == role_of(individual_position@),
        individual_position@ == "UTILITY"@ ==> r@ == "SUPPORT"@,
        individual_position@ != "UTILITY"@ ==> r@ == individual_position@,
{
    let position = individual_position.to_owned();
    let utility = "UTILITY".to_owned();
    if position == utility {
        "SUPPORT".to_owned()
    } else {
        position
    }
}

/// `m` is the mapping of participant `p`: identifier and champion copied,
/// positional label normalized.
pub open spec fn is_mapping_of(p: Participant, m: PuuidToChampionMapping) -> bool {
    &&& m.puuid@ == p.puuid@
    &&& m.champion_name@ == p.champion_name@
    &&& m.position@ == role_of(p.individual_position@)
}

/// Maps each participant, in order, to its player identifier, champion and
/// normalized role.
pub fn get_puuid_to_champion_mapping(participants: &[Participant]) -> (r: Vec<PuuidToChampionMapping>)
    ensures
        r@.len() == participants@.len(),
        forall|i: int|
            0 <= i < r@.len() ==> is_mapping_of(participants@[i], #[trigger] r@[i]),
        participants@.len() == 0 ==> r@.len() == 0,
{
    let mut r: Vec<PuuidToChampionMapping> = Vec::new();
    let mut i: usize = 0;
    while i < participants.len()
        invariant
            i <= participants@.len(),
            r@.len() == i,
            forall|j: int| 0 <= j < i ==> is_mapping_of(participants@[j], #[trigger] r@[j]),
        decreases participants@.len() - i,
    {
        let participant = &participants[i];
        let mapping = PuuidToChampionMapping {
            puuid: participant.puuid.clone(),
            champion_name: participant.champion_name.clone(),
            position: calculate_position(participant.individual_position.as_str()),
        };
        r.push(mapping);
        i = i + 1;
    }
    r
}

} // verus!
