use vstd::prelude::*;
use crate::error::BringUpError;
use crate::pins::{ClaimedPin, PinBank, Role};

verus! {

/// Chip select of the display's serial bus, idle high.
pub const CS_PIN: u8 = 17;
/// Serial clock of the display's bus.
pub const SCK_PIN: u8 = 18;
/// Serial data of the display's bus.
pub const MOSI_PIN: u8 = 19;
/// Display command/data select.
pub const DC_PIN: u8 = 20;
/// Display backlight enable.
pub const BACKLIGHT_PIN: u8 = 9;
/// Display controller reset.
pub const RESET_PIN: u8 = 21;
/// Red channel of the RGB LED.
pub const RED_PIN: u8 = 6;
/// Green channel of the RGB LED.
pub const GREEN_PIN: u8 = 7;
/// Blue channel of the RGB LED.
pub const BLUE_PIN: u8 = 8;
pub const BUTTON_A_PIN: u8 = 12;
pub const BUTTON_B_PIN: u8 = 13;
pub const BUTTON_C_PIN: u8 = 14;
pub const BUTTON_D_PIN: u8 = 15;
pub const BUTTON_E_PIN: u8 = 22;

/// Every line the board uses, each with its role, in the order bring-up
/// claims them.
pub open spec fn board_assignment() -> Seq<ClaimedPin> {
    seq![
        ClaimedPin { id: CS_PIN, role: Role::PushPullOutput { initial_high: true } },
        ClaimedPin { id: SCK_PIN, role: Role::BusFunction },
        ClaimedPin { id: MOSI_PIN, role: Role::BusFunction },
        ClaimedPin { id: DC_PIN, role: Role::PushPullOutput { initial_high: false } },
        ClaimedPin { id: BACKLIGHT_PIN, role: Role::PushPullOutput { initial_high: false } },
        ClaimedPin { id: RESET_PIN, role: Role::PushPullOutput { initial_high: false } },
        ClaimedPin { id: RED_PIN, role: Role::PwmOutput },
        ClaimedPin { id: GREEN_PIN, role: Role::PwmOutput },
        ClaimedPin { id: BLUE_PIN, role: Role::PwmOutput },
        ClaimedPin { id: BUTTON_A_PIN, role: Role::PullUpInput },
        ClaimedPin { id: BUTTON_B_PIN, role: Role::PullUpInput },
        ClaimedPin { id: BUTTON_C_PIN, role: Role::PullUpInput },
        ClaimedPin { id: BUTTON_D_PIN, role: Role::PullUpInput },
        ClaimedPin { id: BUTTON_E_PIN, role: Role::PullUpInput },
    ]
}

/// The identities of the lines the board uses.
pub open spec fn board_ids() -> Set<u8> {
    set![
        CS_PIN, SCK_PIN, MOSI_PIN, DC_PIN, BACKLIGHT_PIN, RESET_PIN, RED_PIN, GREEN_PIN,
        BLUE_PIN, BUTTON_A_PIN, BUTTON_B_PIN, BUTTON_C_PIN, BUTTON_D_PIN, BUTTON_E_PIN,
    ]
}

/// Whether no identity occurs twice among `claims`.
pub open spec fn claims_injective(claims: Seq<ClaimedPin>) -> bool {
    forall|i: int, j: int| 0 <= i < claims.len() && 0 <= j < claims.len() && i != j
        ==> claims[i].id != claims[j].id
}

/// The lines of the board, each claimed for its one role.
#[derive(Clone, Copy, Debug)]
pub struct BoardPins {
    pub chip_select: ClaimedPin,
    pub bus_clock: ClaimedPin,
    pub bus_data: ClaimedPin,
    pub display_command: ClaimedPin,
    pub backlight: ClaimedPin,
    pub display_reset: ClaimedPin,
    pub red: ClaimedPin,
    pub green: ClaimedPin,
    pub blue: ClaimedPin,
    pub button_a: ClaimedPin,
    pub button_b: ClaimedPin,
    pub button_c: ClaimedPin,
    pub button_d: ClaimedPin,
    pub button_e: ClaimedPin,
}

impl BoardPins {
    /// The claims, in the order of `board_assignment`.
    pub open spec fn claims(&self) -> Seq<ClaimedPin> {
        seq![
            self.chip_select, self.bus_clock, self.bus_data, self.display_command,
            self.backlight, self.display_reset, self.red, self.green, self.blue,
            self.button_a, self.button_b, self.button_c, self.button_d, self.button_e,
        ]
    }
}

/// No line of the board is assigned two roles: the identities of
/// `board_assignment` are pairwise distinct, and they are exactly `board_ids`.
pub proof fn lemma_board_claims_injective()
    ensures
        claims_injective(board_assignment()),
        board_assignment().len() == 14,
        forall|i: int| 0 <= i < 14 ==> board_ids().contains(#[trigger] board_assignment()[i].id),
        forall|id: u8| board_ids().contains(id)
            ==> exists|i: int| 0 <= i < 14 && #[trigger] board_assignment()[i].id == id,
{
    let a = board_assignment();
    assert(a[0].id == 17 && a[1].id == 18 && a[2].id == 19 && a[3].id == 20 && a[4].id == 9
        && a[5].id == 21 && a[6].id == 6 && a[7].id == 7 && a[8].id == 8 && a[9].id == 12
        && a[10].id == 13 && a[11].id == 14 && a[12].id == 15 && a[13].id == 22);
    assert forall|id: u8| board_ids().contains(id) implies exists|i: int|
        0 <= i < 14 && #[trigger] a[i].id == id by {
        if id == 17 { assert(a[0].id == id); }
        else if id == 18 { assert(a[1].id == id); }
        else if id == 19 { assert(a[2].id == id); }
        else if id == 20 { assert(a[3].id == id); }
        else if id == 9 { assert(a[4].id == id); }
        else if id == 21 { assert(a[5].id == id); }
        else if id == 6 { assert(a[6].id == id); }
        else if id == 7 { assert(a[7].id == id); }
        else if id == 8 { assert(a[8].id == id); }
        else if id == 12 { assert(a[9].id == id); }
        else if id == 13 { assert(a[10].id == id); }
        else if id == 14 { assert(a[11].id == id); }
        else if id == 15 { assert(a[12].id == id); }
        else { assert(a[13].id == id); }
    }
}

/// Claims every line of the board from `bank`, all or none: if any of them
/// is already gone, nothing is claimed and the claim is refused.
pub fn claim_board_pins(bank: &mut PinBank) -> (r: Result<BoardPins, BringUpError>)
    requires
        old(bank).wf(),
    ensures
        final(bank).wf(),
        board_ids().subset_of(old(bank)@) ==> (r matches Ok(p) && p.claims() == board_assignment()
            && claims_injective(p.claims())
            && final(bank)@ == old(bank)@.difference(board_ids())),
        !board_ids().subset_of(old(bank)@) ==> r == Err::<BoardPins, BringUpError>(
            BringUpError::ResourceAlreadyClaimed,
        ) && final(bank)@ == old(bank)@,
{
    let all_free = bank.is_free(CS_PIN) && bank.is_free(SCK_PIN) && bank.is_free(MOSI_PIN)
        && bank.is_free(DC_PIN) && bank.is_free(BACKLIGHT_PIN) && bank.is_free(RESET_PIN)
        && bank.is_free(RED_PIN) && bank.is_free(GREEN_PIN) && bank.is_free(BLUE_PIN)
        && bank.is_free(BUTTON_A_PIN) && bank.is_free(BUTTON_B_PIN) && bank.is_free(BUTTON_C_PIN)
        && bank.is_free(BUTTON_D_PIN) && bank.is_free(BUTTON_E_PIN);
    if !all_free {
        return Err(BringUpError::ResourceAlreadyClaimed);
    }
    let ghost start = bank@;
    let output_low = Role::PushPullOutput { initial_high: false };
    let chip_select = bank.claim(CS_PIN, Role::PushPullOutput { initial_high: true }).unwrap();
    let bus_clock = bank.claim(SCK_PIN, Role::BusFunction).unwrap();
    let bus_data = bank.claim(MOSI_PIN, Role::BusFunction).unwrap();
    let display_command = bank.claim(DC_PIN, output_low).unwrap();
    let backlight = bank.claim(BACKLIGHT_PIN, output_low).unwrap();
    let display_reset = bank.claim(RESET_PIN, output_low).unwrap();
    let red = bank.claim(RED_PIN, Role::PwmOutput).unwrap();
    let green = bank.claim(GREEN_PIN, Role::PwmOutput).unwrap();
    let blue = bank.claim(BLUE_PIN, Role::PwmOutput).unwrap();
    let button_a = bank.claim(BUTTON_A_PIN, Role::PullUpInput).unwrap();
    let button_b = bank.claim(BUTTON_B_PIN, Role::PullUpInput).unwrap();
    let button_c = bank.claim(BUTTON_C_PIN, Role::PullUpInput).unwrap();
    let button_d = bank.claim(BUTTON_D_PIN, Role::PullUpInput).unwrap();
    let button_e = bank.claim(BUTTON_E_PIN, Role::PullUpInput).unwrap();
    let p = BoardPins {
        chip_select, bus_clock, bus_data, display_command, backlight, display_reset,
        red, green, blue, button_a, button_b, button_c, button_d, button_e,
    };
    proof {
        lemma_board_claims_injective();
        assert(p.claims() =~= board_assignment());
        assert(bank@ =~= start.difference(board_ids()));
    }
    Ok(p)
}

} // verus!
