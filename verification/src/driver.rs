//! The words by which a deployment driver is told what to do.

use vstd::prelude::*;

verus! {

/// What a driver can be asked to do with the registration contract.
#[derive(Clone, Copy, Debug, PartialEq, Eq, Structural)]
pub enum DriverCommand {
    /// Deploy the contract.
    Deploy,
    /// Query the fee of a normal registration.
    RegistrationFee,
    /// Query the fee of a VIP registration.
    RegistrationFeeVip,
    /// Query the accounts registered at the normal fee.
    Participants,
    /// Query the accounts registered at the VIP fee.
    VipParticipants,
    /// Set the fee of a normal registration.
    UpdateNormalRegistrationFee,
    /// Set the fee of a VIP registration.
    UpdateVipRegistrationFee,
    /// Register.
    Register,
}

/// Whether two texts are the same.
fn same_text(left: &str, right: &str) -> (same: bool)
    ensures
        same == (left@ == right@),
{
    left.to_owned() == right.to_owned()
}

impl DriverCommand {
    /// The command that `word` names, if it names one. The words are those
    /// of the contract's endpoints, and `deploy`.
    pub open spec fn named(word: Seq<char>) -> Option<DriverCommand> {
        if word == "deploy"@ {
            Some(DriverCommand::Deploy)
        } else if word == "getRegistrationFee"@ {
            Some(DriverCommand::RegistrationFee)
        } else if word == "getRegistrationFeeVip"@ {
            Some(DriverCommand::RegistrationFeeVip)
        } else if word == "getParticipants"@ {
            Some(DriverCommand::Participants)
        } else if word == "getVipParticipants"@ {
            Some(DriverCommand::VipParticipants)
        } else if word == "update_normal_registration_fee"@ {
            Some(DriverCommand::UpdateNormalRegistrationFee)
        } else if word == "update_vip_registration_fee"@ {
            Some(DriverCommand::UpdateVipRegistrationFee)
        } else if word == "register"@ {
            Some(DriverCommand::Register)
        } else {
            None
        }
    }

    /// Reads a command word.
    pub fn parse(word: &str) -> (command: Option<DriverCommand>)
        ensures
            command == DriverCommand::named(word@),
    {
        if same_text(word, "deploy") {
            Some(DriverCommand::Deploy)
        } else if same_text(word, "getRegistrationFee") {
            Some(DriverCommand::RegistrationFee)
        } else if same_text(word, "getRegistrationFeeVip") {
            Some(DriverCommand::RegistrationFeeVip)
        } else if same_text(word, "getParticipants") {
            Some(DriverCommand::Participants)
        } else if same_text(word, "getVipParticipants") {
            Some(DriverCommand::VipParticipants)
        } else if same_text(word, "update_normal_registration_fee") {
            Some(DriverCommand::UpdateNormalRegistrationFee)
        } else if same_text(word, "update_vip_registration_fee") {
            Some(DriverCommand::UpdateVipRegistrationFee)
        } else if same_text(word, "register") {
            Some(DriverCommand::Register)
        } else {
            None
        }
    }
}

/// Each of the eight command words names its own command.
pub proof fn law_each_word_names_its_command()
    ensures
        DriverCommand::named("deploy"@) == Some(DriverCommand::Deploy),
        DriverCommand::named("getRegistrationFee"@) == Some(DriverCommand::RegistrationFee),
        DriverCommand::named("getRegistrationFeeVip"@) == Some(DriverCommand::RegistrationFeeVip),
        DriverCommand::named("getParticipants"@) == Some(DriverCommand::Participants),
        DriverCommand::named("getVipParticipants"@) == Some(DriverCommand::VipParticipants),
        DriverCommand::named("update_normal_registration_fee"@) == Some(
            DriverCommand::UpdateNormalRegistrationFee,
        ),
        DriverCommand::named("update_vip_registration_fee"@) == Some(
            DriverCommand::UpdateVipRegistrationFee,
        ),
        DriverCommand::named("register"@) == Some(DriverCommand::Register),
{
    reveal_strlit("deploy");
    reveal_strlit("getRegistrationFee");
    reveal_strlit("getRegistrationFeeVip");
    reveal_strlit("getParticipants");
    reveal_strlit("getVipParticipants");
    reveal_strlit("update_normal_registration_fee");
    reveal_strlit("update_vip_registration_fee");
    reveal_strlit("register");
    assert("deploy"@.len() == 6);
    assert("getRegistrationFee"@.len() == 18);
    assert("getRegistrationFeeVip"@.len() == 21);
    assert("getParticipants"@.len() == 15);
    assert("getVipParticipants"@.len() == 18);
    assert("update_normal_registration_fee"@.len() == 30);
    assert("update_vip_registration_fee"@.len() == 27);
    assert("register"@.len() == 8);
    assert("getRegistrationFee"@[3] != "getVipParticipants"@[3]);
}

} // verus!
