use vstd::prelude::*;
use crate::hand::HandOrganization;
use crate::input::UserInput;
use crate::organize::{organize_error, organize_hand, organize_input_wf, organized_as};
use crate::yaku_checker::{check_all_yaku, dora_fits, final_yaku, indicators_wf, YakuResult};
use crate::yakuman::{resolvable, resolves_to};

verus! {

/// What calculating a win gives for an input that the organizer accepts and that it
/// organizes as `org`.
pub open spec fn agari_outcome(
    input: UserInput,
    org: HandOrganization,
    res: Result<YakuResult, &'static str>,
) -> bool {
    match res {
        Ok(r) => {
            &&& resolvable(org)
            &&& resolves_to(org, r.hand_structure)
            &&& r.yaku_list@ == final_yaku(
                org,
                input.player_context,
                input.game_context,
                input.agari_type,
            )
        },
        Err(e) => !resolvable(org) && e == "Invalid irregular hand. Not Kokushi or Chiitoitsu.",
    }
}

/// Organizes the hand and finds its yaku: the organizer's error, if it has one,
/// otherwise what the yaku checker makes of the organization.
pub fn calculate_agari(input: &UserInput) -> (res: Result<YakuResult, &'static str>)
    requires
        organize_input_wf(*input),
        indicators_wf(input.game_context),
        forall|org: HandOrganization|
            #[trigger] organized_as(*input, org) ==> dora_fits(
                org,
                input.player_context,
                input.game_context,
                input.agari_type,
            ),
    ensures
        organize_error(*input) matches Some(e) ==> res == Err::<YakuResult, &'static str>(e),
        organize_error(*input) is None ==> exists|org: HandOrganization|
            #[trigger] organized_as(*input, org) && agari_outcome(*input, org, res),
{
    let player = &input.player_context;
    let game = &input.game_context;
    let agari_type = input.agari_type;
    let organization = match organize_hand(input) {
        Ok(o) => o,
        Err(e) => return Err(e),
    };
    let yaku_result = check_all_yaku(organization, player, game, agari_type);
    assert(agari_outcome(*input, organization, yaku_result));
    yaku_result
}

} // verus!
