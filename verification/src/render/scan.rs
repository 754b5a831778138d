//! Embeds for the scheduled scan.

use vstd::prelude::*;

use crate::render::colours::COLOR_AMBER;
use crate::text::number;
use crate::ui::Embed;

#[allow(unused_imports)]
use crate::text::decimal;
#[allow(unused_imports)]
use crate::ui::EmbedView;

verus! {

/// The accent of an alert.
pub const ALERT_COLOUR: u32 = 0xc8_10_2e;

/// The alert posted when the scan's tripwire aborts a pass.
pub open spec fn alert_view(demotions: int, scanned: int, percent: int, floor: int) -> EmbedView {
    EmbedView::empty().title("Scheduled scan paused"@).description(
        "The scan would have demoted "@ + decimal(demotions as nat) + " of "@ + decimal(
            scanned as nat,
        ) + " members, over the safety threshold ("@ + decimal(percent as nat) + "% and at least "@
            + decimal(floor as nat)
            + "). No roles were changed. This usually means the membership data was incomplete - check Solidarity Tech, then run /refresh-cache before the next scan."@,
    ).colour(ALERT_COLOUR)
}

/// Build the moderator alert for an aborted pass.
pub fn scan_alert_embed(demotions: usize, scanned: usize, percent: u8, floor: usize) -> (r: Embed)
    ensures
        r@ == alert_view(demotions as int, scanned as int, percent as int, floor as int),
{
    Embed::new().title("Scheduled scan paused".to_owned()).description(
        "The scan would have demoted ".to_owned().concat(number(demotions as u64).as_str()).concat(
            " of ",
        ).concat(number(scanned as u64).as_str()).concat(
            " members, over the safety threshold (",
        ).concat(number(percent as u64).as_str()).concat("% and at least ").concat(
            number(floor as u64).as_str(),
        ).concat(
            "). No roles were changed. This usually means the membership data was incomplete - check Solidarity Tech, then run /refresh-cache before the next scan.",
        ),
    ).colour(ALERT_COLOUR)
}

/// The summary of members held inside the payment-processing window.
pub open spec fn lapse_grace_view(held: int, scanned: int) -> EmbedView {
    EmbedView::empty().title("Dues holds this scan"@).description(
        decimal(held as nat) + " of "@ + decimal(scanned as nat) + " "@ + (if held == 1 {
            "member"@
        } else {
            "members"@
        })
            + " are recorded as lapsed but have an expiry date recent enough that their renewal payment is most likely still processing. They were held at Member rather than demoted.\n\nThis works around a known upstream defect. When this message stops appearing, the defect is fixed and the workaround can be removed."@,
    ).colour(COLOR_AMBER)
}

/// Build the summary of members held inside the payment-processing window.
pub fn lapse_grace_embed(held: usize, scanned: usize) -> (r: Embed)
    ensures
        r@ == lapse_grace_view(held as int, scanned as int),
{
    let members = if held == 1 {
        "member"
    } else {
        "members"
    };
    Embed::new().title("Dues holds this scan".to_owned()).description(
        number(held as u64).concat(" of ").concat(number(scanned as u64).as_str()).concat(
            " ",
        ).concat(members).concat(
            " are recorded as lapsed but have an expiry date recent enough that their renewal payment is most likely still processing. They were held at Member rather than demoted.\n\nThis works around a known upstream defect. When this message stops appearing, the defect is fixed and the workaround can be removed.",
        ),
    ).colour(COLOR_AMBER)
}

/// The summary of holds tells both numbers, and one held member is a member.
pub proof fn law_holds_are_reported_by_number(held: int, scanned: int)
    ensures
        lapse_grace_view(held, scanned).title == Some("Dues holds this scan"@),
        lapse_grace_view(held, scanned).colour == Some(COLOR_AMBER),
        lapse_grace_view(held, scanned).description == Some(
            decimal(held as nat) + " of "@ + decimal(scanned as nat) + " "@ + (if held == 1 {
                "member"@
            } else {
                "members"@
            })
                + " are recorded as lapsed but have an expiry date recent enough that their renewal payment is most likely still processing. They were held at Member rather than demoted.\n\nThis works around a known upstream defect. When this message stops appearing, the defect is fixed and the workaround can be removed."@,
        ),
{
}

/// The alert is told from the demotions, the roster and the threshold, each in its place.
pub proof fn law_the_alert_tells_its_numbers(demotions: int, scanned: int, percent: int, floor: int)
    ensures
        alert_view(demotions, scanned, percent, floor).title == Some("Scheduled scan paused"@),
        alert_view(demotions, scanned, percent, floor).colour == Some(ALERT_COLOUR),
        alert_view(demotions, scanned, percent, floor).description == Some(
            "The scan would have demoted "@ + decimal(demotions as nat) + " of "@ + decimal(
                scanned as nat,
            ) + " members, over the safety threshold ("@ + decimal(percent as nat)
                + "% and at least "@ + decimal(floor as nat)
                + "). No roles were changed. This usually means the membership data was incomplete - check Solidarity Tech, then run /refresh-cache before the next scan."@,
        ),
{
}

} // verus!
