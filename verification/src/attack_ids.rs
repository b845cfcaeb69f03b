use vstd::prelude::*;

// Attacks implemented by identifier, looked up by card number and attack
// index. Newer attacks are implemented through `Mechanic` instead.

verus! {

/// Attacks implemented by identifier.
#[derive(Debug, Clone, Copy, PartialEq, Eq, Hash, Structural)]
pub enum AttackId {
    A1115AbraTeleport,
    A1136GolurkDoubleLariat,
    A1149GolemDoubleEdge,
    A1153MarowakExBonemerang,
    A1163GrapploctKnockBack,
    A1178MawileCrunch,
    A1181MeltanAmass,
    A1196MeowthPayDay,
    A1201LickitungContinuousLick,
    A1203KangaskhanDizzyPunch,
    A1a001ExeggcuteGrowthSpurt,
    A1a010PonytaStomp,
    A1a011RapidashRisingLunge,
    A1a017MagikarpLeapOut,
    A1a026RaichuGigashock,
    A1a061EeveeContinuousSteps,
    A2023MagmarStoke,
    A2029InfernapeExFlareBlitz,
    A2049PalkiaExDimensionalStorm,
    A2056ElectabuzzCharge,
    A2060LuxrayVoltBolt,
    A2084GliscorAcrobatics,
    A2098SneaselDoubleScratch,
    A2118ProbopassTripleNose,
    A2131AmbipomDoubleHit,
    A2141ChatotFuryAttack,
    A2a001HeracrossSingleHornThrow,
    A2a063SnorlaxCollapse,
    A2b032MrMimeJuggling,
    A2b044FlamigoDoubleKick,
    A3002AlolanExeggutorTropicalHammer,
    A3012DecidueyeExPierceThePain,
    A3019SteeneeDoubleSpin,
    A3020TsareenaThreeKickCombo,
    A3040AlolanVulpixCallForthCold,
    A3071SpoinkPsycharge,
    A3085CosmogTeleport,
    A3112AbsolUnseenClaw,
    A3116ToxapexSpikeCannon,
    A3122SolgaleoExSolBreaker,
    A3a003RowletFuryAttack,
    A3a019TapuKokoExPlasmaHurricane,
    A3a043GuzzlordExGrindcore,
    A3a044Poipole2Step,
    A3a047AlolanDugtrioExTripletHeadbutt,
    A3a060TypeNullQuickBlow,
    A3a061SilvallyBraveBuddies,
    A3a062CelesteelaMoombahton,
    A3b013IncineroarDarkestLariat,
    A3b020VanilluxeDoubleSpin,
    A3b055EeveeCollect,
    A3b057SnorlaxExFlopDownPunch,
    A3b058AipomDoubleHit,
    A4021ShuckleExTripleSlap,
    A4032MagbyToastyToss,
    A4066PichuCracklyToss,
    A4077CleffaTwinklyCall,
    A4105BinacleDualChop,
    A4134EeveeFindAFriend,
    A4146UrsaringSwingAround,
    A4a021FeebasLeapOut,
    A4a023MantykeSplashyToss,
    B1052MegaGyaradosExMegaBlaster,
    B1085MegaAmpharosExLightningLancer,
    B1101SableyeDirtyThrow,
    B1150AbsolOminousClaw,
    B1151MegaAbsolExDarknessClaw,
}

/// Whether two strings hold the same characters.
fn same_str(a: &str, b: &str) -> (r: bool)
    ensures
        r == (a@ == b@),
{
    let n = a.unicode_len();
    if n != b.unicode_len() {
        return false;
    }
    let mut i: usize = 0;
    while i < n
        invariant
            n == a@.len(),
            n == b@.len(),
            i <= n,
            forall|j: int| 0 <= j < i ==> a@[j] == b@[j],
        decreases n - i,
    {
        if a.get_char(i) != b.get_char(i) {
            return false;
        }
        i = i + 1;
    }
    assert(a@ =~= b@);
    true
}

/// The attacks of the cards of set A1 implemented by identifier.
pub open spec fn attack_id_in_a1(id: Seq<char>, index: usize) -> Option<AttackId> {
    if id == "A1 115"@ && index == 0 {
        Some(AttackId::A1115AbraTeleport)
    } else if id == "A1 136"@ && index == 0 {
        Some(AttackId::A1136GolurkDoubleLariat)
    } else if id == "A1 149"@ && index == 0 {
        Some(AttackId::A1149GolemDoubleEdge)
    } else if id == "A1 153"@ && index == 0 {
        Some(AttackId::A1153MarowakExBonemerang)
    } else if id == "A1 163"@ && index == 0 {
        Some(AttackId::A1163GrapploctKnockBack)
    } else if id == "A1 178"@ && index == 0 {
        Some(AttackId::A1178MawileCrunch)
    } else if id == "A1 181"@ && index == 0 {
        Some(AttackId::A1181MeltanAmass)
    } else if id == "A1 196"@ && index == 0 {
        Some(AttackId::A1196MeowthPayDay)
    } else if id == "A1 201"@ && index == 0 {
        Some(AttackId::A1201LickitungContinuousLick)
    } else if id == "A1 203"@ && index == 0 {
        Some(AttackId::A1203KangaskhanDizzyPunch)
    } else if id == "A1 246"@ && index == 0 {
        Some(AttackId::A1196MeowthPayDay)
    } else if id == "A1 264"@ && index == 0 {
        Some(AttackId::A1153MarowakExBonemerang)
    } else {
        None
    }
}

fn lookup_a1(id: &str, index: usize) -> (r: Option<AttackId>)
    ensures
        r == attack_id_in_a1(id@, index),
{
    if index == 0 && same_str(id, "A1 115") {
        return Some(AttackId::A1115AbraTeleport);
    }
    if index == 0 && same_str(id, "A1 136") {
        return Some(AttackId::A1136GolurkDoubleLariat);
    }
    if index == 0 && same_str(id, "A1 149") {
        return Some(AttackId::A1149GolemDoubleEdge);
    }
    if index == 0 && same_str(id, "A1 153") {
        return Some(AttackId::A1153MarowakExBonemerang);
    }
    if index == 0 && same_str(id, "A1 163") {
        return Some(AttackId::A1163GrapploctKnockBack);
    }
    if index == 0 && same_str(id, "A1 178") {
        return Some(AttackId::A1178MawileCrunch);
    }
    if index == 0 && same_str(id, "A1 181") {
        return Some(AttackId::A1181MeltanAmass);
    }
    if index == 0 && same_str(id, "A1 196") {
        return Some(AttackId::A1196MeowthPayDay);
    }
    if index == 0 && same_str(id, "A1 201") {
        return Some(AttackId::A1201LickitungContinuousLick);
    }
    if index == 0 && same_str(id, "A1 203") {
        return Some(AttackId::A1203KangaskhanDizzyPunch);
    }
    if index == 0 && same_str(id, "A1 246") {
        return Some(AttackId::A1196MeowthPayDay);
    }
    if index == 0 && same_str(id, "A1 264") {
        return Some(AttackId::A1153MarowakExBonemerang);
    }
    None
}

/// The attacks of the cards of set A1a implemented by identifier.
pub open spec fn attack_id_in_a1a(id: Seq<char>, index: usize) -> Option<AttackId> {
    if id == "A1a 001"@ && index == 0 {
        Some(AttackId::A1a001ExeggcuteGrowthSpurt)
    } else if id == "A1a 010"@ && index == 0 {
        Some(AttackId::A1a010PonytaStomp)
    } else if id == "A1a 011"@ && index == 0 {
        Some(AttackId::A1a011RapidashRisingLunge)
    } else if id == "A1a 017"@ && index == 0 {
        Some(AttackId::A1a017MagikarpLeapOut)
    } else if id == "A1a 026"@ && index == 0 {
        Some(AttackId::A1a026RaichuGigashock)
    } else if id == "A1a 061"@ && index == 0 {
        Some(AttackId::A1a061EeveeContinuousSteps)
    } else {
        None
    }
}

fn lookup_a1a(id: &str, index: usize) -> (r: Option<AttackId>)
    ensures
        r == attack_id_in_a1a(id@, index),
{
    if index == 0 && same_str(id, "A1a 001") {
        return Some(AttackId::A1a001ExeggcuteGrowthSpurt);
    }
    if index == 0 && same_str(id, "A1a 010") {
        return Some(AttackId::A1a010PonytaStomp);
    }
    if index == 0 && same_str(id, "A1a 011") {
        return Some(AttackId::A1a011RapidashRisingLunge);
    }
    if index == 0 && same_str(id, "A1a 017") {
        return Some(AttackId::A1a017MagikarpLeapOut);
    }
    if index == 0 && same_str(id, "A1a 026") {
        return Some(AttackId::A1a026RaichuGigashock);
    }
    if index == 0 && same_str(id, "A1a 061") {
        return Some(AttackId::A1a061EeveeContinuousSteps);
    }
    None
}

/// The attacks of the cards of set A2 implemented by identifier.
pub open spec fn attack_id_in_a2(id: Seq<char>, index: usize) -> Option<AttackId> {
    if id == "A2 023"@ && index == 0 {
        Some(AttackId::A2023MagmarStoke)
    } else if id == "A2 029"@ && index == 0 {
        Some(AttackId::A2029InfernapeExFlareBlitz)
    } else if id == "A2 049"@ && index == 1 {
        Some(AttackId::A2049PalkiaExDimensionalStorm)
    } else if id == "A2 056"@ && index == 0 {
        Some(AttackId::A2056ElectabuzzCharge)
    } else if id == "A2 060"@ && index == 0 {
        Some(AttackId::A2060LuxrayVoltBolt)
    } else if id == "A2 084"@ && index == 0 {
        Some(AttackId::A2084GliscorAcrobatics)
    } else if id == "A2 098"@ && index == 0 {
        Some(AttackId::A2098SneaselDoubleScratch)
    } else if id == "A2 118"@ && index == 0 {
        Some(AttackId::A2118ProbopassTripleNose)
    } else if id == "A2 131"@ && index == 0 {
        Some(AttackId::A2131AmbipomDoubleHit)
    } else if id == "A2 141"@ && index == 0 {
        Some(AttackId::A2141ChatotFuryAttack)
    } else if id == "A2 181"@ && index == 0 {
        Some(AttackId::A2029InfernapeExFlareBlitz)
    } else if id == "A2 182"@ && index == 1 {
        Some(AttackId::A2049PalkiaExDimensionalStorm)
    } else if id == "A2 197"@ && index == 0 {
        Some(AttackId::A2029InfernapeExFlareBlitz)
    } else if id == "A2 204"@ && index == 1 {
        Some(AttackId::A2049PalkiaExDimensionalStorm)
    } else if id == "A2 206"@ && index == 1 {
        Some(AttackId::A2049PalkiaExDimensionalStorm)
    } else {
        None
    }
}

fn lookup_a2(id: &str, index: usize) -> (r: Option<AttackId>)
    ensures
        r == attack_id_in_a2(id@, index),
{
    if index == 0 && same_str(id, "A2 023") {
        return Some(AttackId::A2023MagmarStoke);
    }
    if index == 0 && same_str(id, "A2 029") {
        return Some(AttackId::A2029InfernapeExFlareBlitz);
    }
    if index == 1 && same_str(id, "A2 049") {
        return Some(AttackId::A2049PalkiaExDimensionalStorm);
    }
    if index == 0 && same_str(id, "A2 056") {
        return Some(AttackId::A2056ElectabuzzCharge);
    }
    if index == 0 && same_str(id, "A2 060") {
        return Some(AttackId::A2060LuxrayVoltBolt);
    }
    if index == 0 && same_str(id, "A2 084") {
        return Some(AttackId::A2084GliscorAcrobatics);
    }
    if index == 0 && same_str(id, "A2 098") {
        return Some(AttackId::A2098SneaselDoubleScratch);
    }
    if index == 0 && same_str(id, "A2 118") {
        return Some(AttackId::A2118ProbopassTripleNose);
    }
    if index == 0 && same_str(id, "A2 131") {
        return Some(AttackId::A2131AmbipomDoubleHit);
    }
    if index == 0 && same_str(id, "A2 141") {
        return Some(AttackId::A2141ChatotFuryAttack);
    }
    if index == 0 && same_str(id, "A2 181") {
        return Some(AttackId::A2029InfernapeExFlareBlitz);
    }
    if index == 1 && same_str(id, "A2 182") {
        return Some(AttackId::A2049PalkiaExDimensionalStorm);
    }
    if index == 0 && same_str(id, "A2 197") {
        return Some(AttackId::A2029InfernapeExFlareBlitz);
    }
    if index == 1 && same_str(id, "A2 204") {
        return Some(AttackId::A2049PalkiaExDimensionalStorm);
    }
    if index == 1 && same_str(id, "A2 206") {
        return Some(AttackId::A2049PalkiaExDimensionalStorm);
    }
    None
}

/// The attacks of the cards of set A2a implemented by identifier.
pub open spec fn attack_id_in_a2a(id: Seq<char>, index: usize) -> Option<AttackId> {
    if id == "A2a 001"@ && index == 0 {
        Some(AttackId::A2a001HeracrossSingleHornThrow)
    } else if id == "A2a 063"@ && index == 0 {
        Some(AttackId::A2a063SnorlaxCollapse)
    } else {
        None
    }
}

fn lookup_a2a(id: &str, index: usize) -> (r: Option<AttackId>)
    ensures
        r == attack_id_in_a2a(id@, index),
{
    if index == 0 && same_str(id, "A2a 001") {
        return Some(AttackId::A2a001HeracrossSingleHornThrow);
    }
    if index == 0 && same_str(id, "A2a 063") {
        return Some(AttackId::A2a063SnorlaxCollapse);
    }
    None
}

/// The attacks of the cards of set A2b implemented by identifier.
pub open spec fn attack_id_in_a2b(id: Seq<char>, index: usize) -> Option<AttackId> {
    if id == "A2b 032"@ && index == 0 {
        Some(AttackId::A2b032MrMimeJuggling)
    } else if id == "A2b 044"@ && index == 0 {
        Some(AttackId::A2b044FlamigoDoubleKick)
    } else {
        None
    }
}

fn lookup_a2b(id: &str, index: usize) -> (r: Option<AttackId>)
    ensures
        r == attack_id_in_a2b(id@, index),
{
    if index == 0 && same_str(id, "A2b 032") {
        return Some(AttackId::A2b032MrMimeJuggling);
    }
    if index == 0 && same_str(id, "A2b 044") {
        return Some(AttackId::A2b044FlamigoDoubleKick);
    }
    None
}

/// The attacks of the cards of set A3 implemented by identifier.
pub open spec fn attack_id_in_a3(id: Seq<char>, index: usize) -> Option<AttackId> {
    if id == "A3 002"@ && index == 0 {
        Some(AttackId::A3002AlolanExeggutorTropicalHammer)
    } else if id == "A3 012"@ && index == 0 {
        Some(AttackId::A3012DecidueyeExPierceThePain)
    } else if id == "A3 019"@ && index == 0 {
        Some(AttackId::A3019SteeneeDoubleSpin)
    } else if id == "A3 020"@ && index == 0 {
        Some(AttackId::A3020TsareenaThreeKickCombo)
    } else if id == "A3 040"@ && index == 0 {
        Some(AttackId::A3040AlolanVulpixCallForthCold)
    } else if id == "A3 071"@ && index == 0 {
        Some(AttackId::A3071SpoinkPsycharge)
    } else if id == "A3 085"@ && index == 0 {
        Some(AttackId::A3085CosmogTeleport)
    } else if id == "A3 112"@ && index == 0 {
        Some(AttackId::A3112AbsolUnseenClaw)
    } else if id == "A3 116"@ && index == 0 {
        Some(AttackId::A3116ToxapexSpikeCannon)
    } else if id == "A3 122"@ && index == 0 {
        Some(AttackId::A3122SolgaleoExSolBreaker)
    } else if id == "A3 156"@ && index == 0 {
        Some(AttackId::A3002AlolanExeggutorTropicalHammer)
    } else if id == "A3 158"@ && index == 0 {
        Some(AttackId::A3020TsareenaThreeKickCombo)
    } else if id == "A3 162"@ && index == 0 {
        Some(AttackId::A3040AlolanVulpixCallForthCold)
    } else if id == "A3 171"@ && index == 0 {
        Some(AttackId::A3085CosmogTeleport)
    } else if id == "A3 180"@ && index == 0 {
        Some(AttackId::A3012DecidueyeExPierceThePain)
    } else if id == "A3 189"@ && index == 0 {
        Some(AttackId::A3122SolgaleoExSolBreaker)
    } else if id == "A3 198"@ && index == 0 {
        Some(AttackId::A3012DecidueyeExPierceThePain)
    } else if id == "A3 207"@ && index == 0 {
        Some(AttackId::A3122SolgaleoExSolBreaker)
    } else if id == "A3 236"@ && index == 0 {
        Some(AttackId::A1153MarowakExBonemerang)
    } else if id == "A3 239"@ && index == 0 {
        Some(AttackId::A3122SolgaleoExSolBreaker)
    } else {
        None
    }
}

fn lookup_a3(id: &str, index: usize) -> (r: Option<AttackId>)
    ensures
        r == attack_id_in_a3(id@, index),
{
    if index == 0 && same_str(id, "A3 002") {
        return Some(AttackId::A3002AlolanExeggutorTropicalHammer);
    }
    if index == 0 && same_str(id, "A3 012") {
        return Some(AttackId::A3012DecidueyeExPierceThePain);
    }
    if index == 0 && same_str(id, "A3 019") {
        return Some(AttackId::A3019SteeneeDoubleSpin);
    }
    if index == 0 && same_str(id, "A3 020") {
        return Some(AttackId::A3020TsareenaThreeKickCombo);
    }
    if index == 0 && same_str(id, "A3 040") {
        return Some(AttackId::A3040AlolanVulpixCallForthCold);
    }
    if index == 0 && same_str(id, "A3 071") {
        return Some(AttackId::A3071SpoinkPsycharge);
    }
    if index == 0 && same_str(id, "A3 085") {
        return Some(AttackId::A3085CosmogTeleport);
    }
    if index == 0 && same_str(id, "A3 112") {
        return Some(AttackId::A3112AbsolUnseenClaw);
    }
    if index == 0 && same_str(id, "A3 116") {
        return Some(AttackId::A3116ToxapexSpikeCannon);
    }
    if index == 0 && same_str(id, "A3 122") {
        return Some(AttackId::A3122SolgaleoExSolBreaker);
    }
    if index == 0 && same_str(id, "A3 156") {
        return Some(AttackId::A3002AlolanExeggutorTropicalHammer);
    }
    if index == 0 && same_str(id, "A3 158") {
        return Some(AttackId::A3020TsareenaThreeKickCombo);
    }
    if index == 0 && same_str(id, "A3 162") {
        return Some(AttackId::A3040AlolanVulpixCallForthCold);
    }
    if index == 0 && same_str(id, "A3 171") {
        return Some(AttackId::A3085CosmogTeleport);
    }
    if index == 0 && same_str(id, "A3 180") {
        return Some(AttackId::A3012DecidueyeExPierceThePain);
    }
    if index == 0 && same_str(id, "A3 189") {
        return Some(AttackId::A3122SolgaleoExSolBreaker);
    }
    if index == 0 && same_str(id, "A3 198") {
        return Some(AttackId::A3012DecidueyeExPierceThePain);
    }
    if index == 0 && same_str(id, "A3 207") {
        return Some(AttackId::A3122SolgaleoExSolBreaker);
    }
    if index == 0 && same_str(id, "A3 236") {
        return Some(AttackId::A1153MarowakExBonemerang);
    }
    if index == 0 && same_str(id, "A3 239") {
        return Some(AttackId::A3122SolgaleoExSolBreaker);
    }
    None
}

/// The attacks of the cards of set A3a implemented by identifier.
pub open spec fn attack_id_in_a3a(id: Seq<char>, index: usize) -> Option<AttackId> {
    if id == "A3a 003"@ && index == 0 {
        Some(AttackId::A3a003RowletFuryAttack)
    } else if id == "A3a 019"@ && index == 0 {
        Some(AttackId::A3a019TapuKokoExPlasmaHurricane)
    } else if id == "A3a 043"@ && index == 0 {
        Some(AttackId::A3a043GuzzlordExGrindcore)
    } else if id == "A3a 044"@ && index == 0 {
        Some(AttackId::A3a044Poipole2Step)
    } else if id == "A3a 047"@ && index == 0 {
        Some(AttackId::A3a047AlolanDugtrioExTripletHeadbutt)
    } else if id == "A3a 060"@ && index == 0 {
        Some(AttackId::A3a060TypeNullQuickBlow)
    } else if id == "A3a 061"@ && index == 0 {
        Some(AttackId::A3a061SilvallyBraveBuddies)
    } else if id == "A3a 062"@ && index == 0 {
        Some(AttackId::A3a062CelesteelaMoombahton)
    } else if id == "A3a 070"@ && index == 0 {
        Some(AttackId::A3a003RowletFuryAttack)
    } else if id == "A3a 074"@ && index == 0 {
        Some(AttackId::A3a061SilvallyBraveBuddies)
    } else if id == "A3a 075"@ && index == 0 {
        Some(AttackId::A3a062CelesteelaMoombahton)
    } else if id == "A3a 077"@ && index == 0 {
        Some(AttackId::A3a019TapuKokoExPlasmaHurricane)
    } else if id == "A3a 079"@ && index == 0 {
        Some(AttackId::A3a043GuzzlordExGrindcore)
    } else if id == "A3a 080"@ && index == 0 {
        Some(AttackId::A3a047AlolanDugtrioExTripletHeadbutt)
    } else if id == "A3a 084"@ && index == 0 {
        Some(AttackId::A3a019TapuKokoExPlasmaHurricane)
    } else if id == "A3a 086"@ && index == 0 {
        Some(AttackId::A3a043GuzzlordExGrindcore)
    } else if id == "A3a 087"@ && index == 0 {
        Some(AttackId::A3a047AlolanDugtrioExTripletHeadbutt)
    } else {
        None
    }
}

fn lookup_a3a(id: &str, index: usize) -> (r: Option<AttackId>)
    ensures
        r == attack_id_in_a3a(id@, index),
{
    if index == 0 && same_str(id, "A3a 003") {
        return Some(AttackId::A3a003RowletFuryAttack);
    }
    if index == 0 && same_str(id, "A3a 019") {
        return Some(AttackId::A3a019TapuKokoExPlasmaHurricane);
    }
    if index == 0 && same_str(id, "A3a 043") {
        return Some(AttackId::A3a043GuzzlordExGrindcore);
    }
    if index == 0 && same_str(id, "A3a 044") {
        return Some(AttackId::A3a044Poipole2Step);
    }
    if index == 0 && same_str(id, "A3a 047") {
        return Some(AttackId::A3a047AlolanDugtrioExTripletHeadbutt);
    }
    if index == 0 && same_str(id, "A3a 060") {
        return Some(AttackId::A3a060TypeNullQuickBlow);
    }
    if index == 0 && same_str(id, "A3a 061") {
        return Some(AttackId::A3a061SilvallyBraveBuddies);
    }
    if index == 0 && same_str(id, "A3a 062") {
        return Some(AttackId::A3a062CelesteelaMoombahton);
    }
    if index == 0 && same_str(id, "A3a 070") {
        return Some(AttackId::A3a003RowletFuryAttack);
    }
    if index == 0 && same_str(id, "A3a 074") {
        return Some(AttackId::A3a061SilvallyBraveBuddies);
    }
    if index == 0 && same_str(id, "A3a 075") {
        return Some(AttackId::A3a062CelesteelaMoombahton);
    }
    if index == 0 && same_str(id, "A3a 077") {
        return Some(AttackId::A3a019TapuKokoExPlasmaHurricane);
    }
    if index == 0 && same_str(id, "A3a 079") {
        return Some(AttackId::A3a043GuzzlordExGrindcore);
    }
    if index == 0 && same_str(id, "A3a 080") {
        return Some(AttackId::A3a047AlolanDugtrioExTripletHeadbutt);
    }
    if index == 0 && same_str(id, "A3a 084") {
        return Some(AttackId::A3a019TapuKokoExPlasmaHurricane);
    }
    if index == 0 && same_str(id, "A3a 086") {
        return Some(AttackId::A3a043GuzzlordExGrindcore);
    }
    if index == 0 && same_str(id, "A3a 087") {
        return Some(AttackId::A3a047AlolanDugtrioExTripletHeadbutt);
    }
    None
}

/// The attacks of the cards of set A3b implemented by identifier.
pub open spec fn attack_id_in_a3b(id: Seq<char>, index: usize) -> Option<AttackId> {
    if id == "A3b 013"@ && index == 0 {
        Some(AttackId::A3b013IncineroarDarkestLariat)
    } else if id == "A3b 020"@ && index == 0 {
        Some(AttackId::A3b020VanilluxeDoubleSpin)
    } else if id == "A3b 055"@ && index == 0 {
        Some(AttackId::A3b055EeveeCollect)
    } else if id == "A3b 057"@ && index == 0 {
        Some(AttackId::A3b057SnorlaxExFlopDownPunch)
    } else if id == "A3b 058"@ && index == 0 {
        Some(AttackId::A3b058AipomDoubleHit)
    } else if id == "A3b 078"@ && index == 0 {
        Some(AttackId::A3b055EeveeCollect)
    } else if id == "A3b 084"@ && index == 0 {
        Some(AttackId::A3b057SnorlaxExFlopDownPunch)
    } else if id == "A3b 091"@ && index == 0 {
        Some(AttackId::A3b057SnorlaxExFlopDownPunch)
    } else {
        None
    }
}

fn lookup_a3b(id: &str, index: usize) -> (r: Option<AttackId>)
    ensures
        r == attack_id_in_a3b(id@, index),
{
    if index == 0 && same_str(id, "A3b 013") {
        return Some(AttackId::A3b013IncineroarDarkestLariat);
    }
    if index == 0 && same_str(id, "A3b 020") {
        return Some(AttackId::A3b020VanilluxeDoubleSpin);
    }
    if index == 0 && same_str(id, "A3b 055") {
        return Some(AttackId::A3b055EeveeCollect);
    }
    if index == 0 && same_str(id, "A3b 057") {
        return Some(AttackId::A3b057SnorlaxExFlopDownPunch);
    }
    if index == 0 && same_str(id, "A3b 058") {
        return Some(AttackId::A3b058AipomDoubleHit);
    }
    if index == 0 && same_str(id, "A3b 078") {
        return Some(AttackId::A3b055EeveeCollect);
    }
    if index == 0 && same_str(id, "A3b 084") {
        return Some(AttackId::A3b057SnorlaxExFlopDownPunch);
    }
    if index == 0 && same_str(id, "A3b 091") {
        return Some(AttackId::A3b057SnorlaxExFlopDownPunch);
    }
    None
}

/// The attacks of the cards of set A4 implemented by identifier.
pub open spec fn attack_id_in_a4(id: Seq<char>, index: usize) -> Option<AttackId> {
    if id == "A4 021"@ && index == 0 {
        Some(AttackId::A4021ShuckleExTripleSlap)
    } else if id == "A4 032"@ && index == 0 {
        Some(AttackId::A4032MagbyToastyToss)
    } else if id == "A4 066"@ && index == 0 {
        Some(AttackId::A4066PichuCracklyToss)
    } else if id == "A4 077"@ && index == 0 {
        Some(AttackId::A4077CleffaTwinklyCall)
    } else if id == "A4 105"@ && index == 0 {
        Some(AttackId::A4105BinacleDualChop)
    } else if id == "A4 134"@ && index == 0 {
        Some(AttackId::A4134EeveeFindAFriend)
    } else if id == "A4 146"@ && index == 0 {
        Some(AttackId::A4146UrsaringSwingAround)
    } else if id == "A4 166"@ && index == 0 {
        Some(AttackId::A4032MagbyToastyToss)
    } else if id == "A4 171"@ && index == 0 {
        Some(AttackId::A4066PichuCracklyToss)
    } else if id == "A4 186"@ && index == 0 {
        Some(AttackId::A4021ShuckleExTripleSlap)
    } else if id == "A4 202"@ && index == 0 {
        Some(AttackId::A4021ShuckleExTripleSlap)
    } else if id == "A4 214"@ && index == 0 {
        Some(AttackId::A1a017MagikarpLeapOut)
    } else if id == "A4 231"@ && index == 0 {
        Some(AttackId::A4134EeveeFindAFriend)
    } else {
        None
    }
}

fn lookup_a4(id: &str, index: usize) -> (r: Option<AttackId>)
    ensures
        r == attack_id_in_a4(id@, index),
{
    if index == 0 && same_str(id, "A4 021") {
        return Some(AttackId::A4021ShuckleExTripleSlap);
    }
    if index == 0 && same_str(id, "A4 032") {
        return Some(AttackId::A4032MagbyToastyToss);
    }
    if index == 0 && same_str(id, "A4 066") {
        return Some(AttackId::A4066PichuCracklyToss);
    }
    if index == 0 && same_str(id, "A4 077") {
        return Some(AttackId::A4077CleffaTwinklyCall);
    }
    if index == 0 && same_str(id, "A4 105") {
        return Some(AttackId::A4105BinacleDualChop);
    }
    if index == 0 && same_str(id, "A4 134") {
        return Some(AttackId::A4134EeveeFindAFriend);
    }
    if index == 0 && same_str(id, "A4 146") {
        return Some(AttackId::A4146UrsaringSwingAround);
    }
    if index == 0 && same_str(id, "A4 166") {
        return Some(AttackId::A4032MagbyToastyToss);
    }
    if index == 0 && same_str(id, "A4 171") {
        return Some(AttackId::A4066PichuCracklyToss);
    }
    if index == 0 && same_str(id, "A4 186") {
        return Some(AttackId::A4021ShuckleExTripleSlap);
    }
    if index == 0 && same_str(id, "A4 202") {
        return Some(AttackId::A4021ShuckleExTripleSlap);
    }
    if index == 0 && same_str(id, "A4 214") {
        return Some(AttackId::A1a017MagikarpLeapOut);
    }
    if index == 0 && same_str(id, "A4 231") {
        return Some(AttackId::A4134EeveeFindAFriend);
    }
    None
}

/// The attacks of the cards of set A4a implemented by identifier.
pub open spec fn attack_id_in_a4a(id: Seq<char>, index: usize) -> Option<AttackId> {
    if id == "A4a 021"@ && index == 0 {
        Some(AttackId::A4a021FeebasLeapOut)
    } else if id == "A4a 023"@ && index == 0 {
        Some(AttackId::A4a023MantykeSplashyToss)
    } else if id == "A4a 101"@ && index == 0 {
        Some(AttackId::A2029InfernapeExFlareBlitz)
    } else if id == "A4a 105"@ && index == 0 {
        Some(AttackId::A4a023MantykeSplashyToss)
    } else {
        None
    }
}

fn lookup_a4a(id: &str, index: usize) -> (r: Option<AttackId>)
    ensures
        r == attack_id_in_a4a(id@, index),
{
    if index == 0 && same_str(id, "A4a 021") {
        return Some(AttackId::A4a021FeebasLeapOut);
    }
    if index == 0 && same_str(id, "A4a 023") {
        return Some(AttackId::A4a023MantykeSplashyToss);
    }
    if index == 0 && same_str(id, "A4a 101") {
        return Some(AttackId::A2029InfernapeExFlareBlitz);
    }
    if index == 0 && same_str(id, "A4a 105") {
        return Some(AttackId::A4a023MantykeSplashyToss);
    }
    None
}

/// The attacks of the cards of set A4b implemented by identifier.
pub open spec fn attack_id_in_a4b(id: Seq<char>, index: usize) -> Option<AttackId> {
    if id == "A4b 023"@ && index == 0 {
        Some(AttackId::A4021ShuckleExTripleSlap)
    } else if id == "A4b 042"@ && index == 0 {
        Some(AttackId::A3012DecidueyeExPierceThePain)
    } else if id == "A4b 075"@ && index == 0 {
        Some(AttackId::A2029InfernapeExFlareBlitz)
    } else if id == "A4b 096"@ && index == 0 {
        Some(AttackId::A1a017MagikarpLeapOut)
    } else if id == "A4b 097"@ && index == 0 {
        Some(AttackId::A1a017MagikarpLeapOut)
    } else if id == "A4b 107"@ && index == 1 {
        Some(AttackId::A2049PalkiaExDimensionalStorm)
    } else if id == "A4b 148"@ && index == 0 {
        Some(AttackId::A3a019TapuKokoExPlasmaHurricane)
    } else if id == "A4b 180"@ && index == 0 {
        Some(AttackId::A3085CosmogTeleport)
    } else if id == "A4b 181"@ && index == 0 {
        Some(AttackId::A3085CosmogTeleport)
    } else if id == "A4b 196"@ && index == 0 {
        Some(AttackId::A1153MarowakExBonemerang)
    } else if id == "A4b 242"@ && index == 0 {
        Some(AttackId::A2098SneaselDoubleScratch)
    } else if id == "A4b 243"@ && index == 0 {
        Some(AttackId::A2098SneaselDoubleScratch)
    } else if id == "A4b 248"@ && index == 0 {
        Some(AttackId::A3a043GuzzlordExGrindcore)
    } else if id == "A4b 251"@ && index == 0 {
        Some(AttackId::A3a047AlolanDugtrioExTripletHeadbutt)
    } else if id == "A4b 259"@ && index == 0 {
        Some(AttackId::A3122SolgaleoExSolBreaker)
    } else if id == "A4b 285"@ && index == 0 {
        Some(AttackId::A3b055EeveeCollect)
    } else if id == "A4b 286"@ && index == 0 {
        Some(AttackId::A3b055EeveeCollect)
    } else if id == "A4b 288"@ && index == 0 {
        Some(AttackId::A3b057SnorlaxExFlopDownPunch)
    } else if id == "A4b 300"@ && index == 0 {
        Some(AttackId::A3a060TypeNullQuickBlow)
    } else if id == "A4b 301"@ && index == 0 {
        Some(AttackId::A3a060TypeNullQuickBlow)
    } else if id == "A4b 302"@ && index == 0 {
        Some(AttackId::A3a061SilvallyBraveBuddies)
    } else if id == "A4b 303"@ && index == 0 {
        Some(AttackId::A3a061SilvallyBraveBuddies)
    } else if id == "A4b 304"@ && index == 0 {
        Some(AttackId::A3a062CelesteelaMoombahton)
    } else if id == "A4b 305"@ && index == 0 {
        Some(AttackId::A3a062CelesteelaMoombahton)
    } else if id == "A4b 363"@ && index == 1 {
        Some(AttackId::A2049PalkiaExDimensionalStorm)
    } else if id == "A4b 369"@ && index == 0 {
        Some(AttackId::A3122SolgaleoExSolBreaker)
    } else {
        None
    }
}

fn lookup_a4b(id: &str, index: usize) -> (r: Option<AttackId>)
    ensures
        r == attack_id_in_a4b(id@, index),
{
    if index == 0 && same_str(id, "A4b 023") {
        return Some(AttackId::A4021ShuckleExTripleSlap);
    }
    if index == 0 && same_str(id, "A4b 042") {
        return Some(AttackId::A3012DecidueyeExPierceThePain);
    }
    if index == 0 && same_str(id, "A4b 075") {
        return Some(AttackId::A2029InfernapeExFlareBlitz);
    }
    if index == 0 && same_str(id, "A4b 096") {
        return Some(AttackId::A1a017MagikarpLeapOut);
    }
    if index == 0 && same_str(id, "A4b 097") {
        return Some(AttackId::A1a017MagikarpLeapOut);
    }
    if index == 1 && same_str(id, "A4b 107") {
        return Some(AttackId::A2049PalkiaExDimensionalStorm);
    }
    if index == 0 && same_str(id, "A4b 148") {
        return Some(AttackId::A3a019TapuKokoExPlasmaHurricane);
    }
    if index == 0 && same_str(id, "A4b 180") {
        return Some(AttackId::A3085CosmogTeleport);
    }
    if index == 0 && same_str(id, "A4b 181") {
        return Some(AttackId::A3085CosmogTeleport);
    }
    if index == 0 && same_str(id, "A4b 196") {
        return Some(AttackId::A1153MarowakExBonemerang);
    }
    if index == 0 && same_str(id, "A4b 242") {
        return Some(AttackId::A2098SneaselDoubleScratch);
    }
    if index == 0 && same_str(id, "A4b 243") {
        return Some(AttackId::A2098SneaselDoubleScratch);
    }
    if index == 0 && same_str(id, "A4b 248") {
        return Some(AttackId::A3a043GuzzlordExGrindcore);
    }
    if index == 0 && same_str(id, "A4b 251") {
        return Some(AttackId::A3a047AlolanDugtrioExTripletHeadbutt);
    }
    if index == 0 && same_str(id, "A4b 259") {
        return Some(AttackId::A3122SolgaleoExSolBreaker);
    }
    if index == 0 && same_str(id, "A4b 285") {
        return Some(AttackId::A3b055EeveeCollect);
    }
    if index == 0 && same_str(id, "A4b 286") {
        return Some(AttackId::A3b055EeveeCollect);
    }
    if index == 0 && same_str(id, "A4b 288") {
        return Some(AttackId::A3b057SnorlaxExFlopDownPunch);
    }
    if index == 0 && same_str(id, "A4b 300") {
        return Some(AttackId::A3a060TypeNullQuickBlow);
    }
    if index == 0 && same_str(id, "A4b 301") {
        return Some(AttackId::A3a060TypeNullQuickBlow);
    }
    if index == 0 && same_str(id, "A4b 302") {
        return Some(AttackId::A3a061SilvallyBraveBuddies);
    }
    if index == 0 && same_str(id, "A4b 303") {
        return Some(AttackId::A3a061SilvallyBraveBuddies);
    }
    if index == 0 && same_str(id, "A4b 304") {
        return Some(AttackId::A3a062CelesteelaMoombahton);
    }
    if index == 0 && same_str(id, "A4b 305") {
        return Some(AttackId::A3a062CelesteelaMoombahton);
    }
    if index == 1 && same_str(id, "A4b 363") {
        return Some(AttackId::A2049PalkiaExDimensionalStorm);
    }
    if index == 0 && same_str(id, "A4b 369") {
        return Some(AttackId::A3122SolgaleoExSolBreaker);
    }
    None
}

/// The attacks of the cards of set B1 implemented by identifier.
pub open spec fn attack_id_in_b1(id: Seq<char>, index: usize) -> Option<AttackId> {
    if id == "B1 052"@ && index == 0 {
        Some(AttackId::B1052MegaGyaradosExMegaBlaster)
    } else if id == "B1 085"@ && index == 0 {
        Some(AttackId::B1085MegaAmpharosExLightningLancer)
    } else if id == "B1 101"@ && index == 0 {
        Some(AttackId::B1101SableyeDirtyThrow)
    } else if id == "B1 150"@ && index == 0 {
        Some(AttackId::B1150AbsolOminousClaw)
    } else if id == "B1 151"@ && index == 0 {
        Some(AttackId::B1151MegaAbsolExDarknessClaw)
    } else if id == "B1 255"@ && index == 0 {
        Some(AttackId::B1052MegaGyaradosExMegaBlaster)
    } else if id == "B1 258"@ && index == 0 {
        Some(AttackId::B1085MegaAmpharosExLightningLancer)
    } else if id == "B1 262"@ && index == 0 {
        Some(AttackId::B1151MegaAbsolExDarknessClaw)
    } else if id == "B1 277"@ && index == 0 {
        Some(AttackId::B1085MegaAmpharosExLightningLancer)
    } else if id == "B1 280"@ && index == 0 {
        Some(AttackId::B1151MegaAbsolExDarknessClaw)
    } else if id == "B1 285"@ && index == 0 {
        Some(AttackId::B1052MegaGyaradosExMegaBlaster)
    } else if id == "B1 312"@ && index == 0 {
        Some(AttackId::A1196MeowthPayDay)
    } else if id == "B1 317"@ && index == 0 {
        Some(AttackId::A3012DecidueyeExPierceThePain)
    } else if id == "B1 319"@ && index == 1 {
        Some(AttackId::A2049PalkiaExDimensionalStorm)
    } else if id == "B1 322"@ && index == 0 {
        Some(AttackId::A3a019TapuKokoExPlasmaHurricane)
    } else if id == "B1 325"@ && index == 0 {
        Some(AttackId::A3a047AlolanDugtrioExTripletHeadbutt)
    } else {
        None
    }
}

fn lookup_b1(id: &str, index: usize) -> (r: Option<AttackId>)
    ensures
        r == attack_id_in_b1(id@, index),
{
    if index == 0 && same_str(id, "B1 052") {
        return Some(AttackId::B1052MegaGyaradosExMegaBlaster);
    }
    if index == 0 && same_str(id, "B1 085") {
        return Some(AttackId::B1085MegaAmpharosExLightningLancer);
    }
    if index == 0 && same_str(id, "B1 101") {
        return Some(AttackId::B1101SableyeDirtyThrow);
    }
    if index == 0 && same_str(id, "B1 150") {
        return Some(AttackId::B1150AbsolOminousClaw);
    }
    if index == 0 && same_str(id, "B1 151") {
        return Some(AttackId::B1151MegaAbsolExDarknessClaw);
    }
    if index == 0 && same_str(id, "B1 255") {
        return Some(AttackId::B1052MegaGyaradosExMegaBlaster);
    }
    if index == 0 && same_str(id, "B1 258") {
        return Some(AttackId::B1085MegaAmpharosExLightningLancer);
    }
    if index == 0 && same_str(id, "B1 262") {
        return Some(AttackId::B1151MegaAbsolExDarknessClaw);
    }
    if index == 0 && same_str(id, "B1 277") {
        return Some(AttackId::B1085MegaAmpharosExLightningLancer);
    }
    if index == 0 && same_str(id, "B1 280") {
        return Some(AttackId::B1151MegaAbsolExDarknessClaw);
    }
    if index == 0 && same_str(id, "B1 285") {
        return Some(AttackId::B1052MegaGyaradosExMegaBlaster);
    }
    if index == 0 && same_str(id, "B1 312") {
        return Some(AttackId::A1196MeowthPayDay);
    }
    if index == 0 && same_str(id, "B1 317") {
        return Some(AttackId::A3012DecidueyeExPierceThePain);
    }
    if index == 1 && same_str(id, "B1 319") {
        return Some(AttackId::A2049PalkiaExDimensionalStorm);
    }
    if index == 0 && same_str(id, "B1 322") {
        return Some(AttackId::A3a019TapuKokoExPlasmaHurricane);
    }
    if index == 0 && same_str(id, "B1 325") {
        return Some(AttackId::A3a047AlolanDugtrioExTripletHeadbutt);
    }
    None
}

/// The attacks of the cards of set B1a implemented by identifier.
pub open spec fn attack_id_in_b1a(id: Seq<char>, index: usize) -> Option<AttackId> {
    if id == "B1a 097"@ && index == 0 {
        Some(AttackId::A3a061SilvallyBraveBuddies)
    } else {
        None
    }
}

fn lookup_b1a(id: &str, index: usize) -> (r: Option<AttackId>)
    ensures
        r == attack_id_in_b1a(id@, index),
{
    if index == 0 && same_str(id, "B1a 097") {
        return Some(AttackId::A3a061SilvallyBraveBuddies);
    }
    None
}

/// The attacks of the cards of set P-A implemented by identifier.
pub open spec fn attack_id_in_pa(id: Seq<char>, index: usize) -> Option<AttackId> {
    if id == "P-A 012"@ && index == 0 {
        Some(AttackId::A1196MeowthPayDay)
    } else if id == "P-A 049"@ && index == 0 {
        Some(AttackId::A2a063SnorlaxCollapse)
    } else if id == "P-A 060"@ && index == 0 {
        Some(AttackId::A1a001ExeggcuteGrowthSpurt)
    } else if id == "P-A 067"@ && index == 0 {
        Some(AttackId::A3085CosmogTeleport)
    } else if id == "P-A 069"@ && index == 0 {
        Some(AttackId::A3002AlolanExeggutorTropicalHammer)
    } else if id == "P-A 082"@ && index == 0 {
        Some(AttackId::A3a044Poipole2Step)
    } else if id == "P-A 084"@ && index == 0 {
        Some(AttackId::A3a019TapuKokoExPlasmaHurricane)
    } else if id == "P-A 093"@ && index == 0 {
        Some(AttackId::A4077CleffaTwinklyCall)
    } else {
        None
    }
}

fn lookup_pa(id: &str, index: usize) -> (r: Option<AttackId>)
    ensures
        r == attack_id_in_pa(id@, index),
{
    if index == 0 && same_str(id, "P-A 012") {
        return Some(AttackId::A1196MeowthPayDay);
    }
    if index == 0 && same_str(id, "P-A 049") {
        return Some(AttackId::A2a063SnorlaxCollapse);
    }
    if index == 0 && same_str(id, "P-A 060") {
        return Some(AttackId::A1a001ExeggcuteGrowthSpurt);
    }
    if index == 0 && same_str(id, "P-A 067") {
        return Some(AttackId::A3085CosmogTeleport);
    }
    if index == 0 && same_str(id, "P-A 069") {
        return Some(AttackId::A3002AlolanExeggutorTropicalHammer);
    }
    if index == 0 && same_str(id, "P-A 082") {
        return Some(AttackId::A3a044Poipole2Step);
    }
    if index == 0 && same_str(id, "P-A 084") {
        return Some(AttackId::A3a019TapuKokoExPlasmaHurricane);
    }
    if index == 0 && same_str(id, "P-A 093") {
        return Some(AttackId::A4077CleffaTwinklyCall);
    }
    None
}

/// The attack implemented by identifier for attack `index` of the card
/// numbered `id`, if there is one.
pub open spec fn attack_id_of(id: Seq<char>, index: usize) -> Option<AttackId> {
    if attack_id_in_a1(id, index) is Some {
        attack_id_in_a1(id, index)
    } else if attack_id_in_a1a(id, index) is Some {
        attack_id_in_a1a(id, index)
    } else if attack_id_in_a2(id, index) is Some {
        attack_id_in_a2(id, index)
    } else if attack_id_in_a2a(id, index) is Some {
        attack_id_in_a2a(id, index)
    } else if attack_id_in_a2b(id, index) is Some {
        attack_id_in_a2b(id, index)
    } else if attack_id_in_a3(id, index) is Some {
        attack_id_in_a3(id, index)
    } else if attack_id_in_a3a(id, index) is Some {
        attack_id_in_a3a(id, index)
    } else if attack_id_in_a3b(id, index) is Some {
        attack_id_in_a3b(id, index)
    } else if attack_id_in_a4(id, index) is Some {
        attack_id_in_a4(id, index)
    } else if attack_id_in_a4a(id, index) is Some {
        attack_id_in_a4a(id, index)
    } else if attack_id_in_a4b(id, index) is Some {
        attack_id_in_a4b(id, index)
    } else if attack_id_in_b1(id, index) is Some {
        attack_id_in_b1(id, index)
    } else if attack_id_in_b1a(id, index) is Some {
        attack_id_in_b1a(id, index)
    } else {
        attack_id_in_pa(id, index)
    }
}

impl AttackId {
    /// The attack implemented by identifier for attack `index` of the card
    /// numbered `pokemon_id`; `None` when there is none.
    pub fn from_pokemon_index(pokemon_id: &str, index: usize) -> (r: Option<Self>)
        ensures
            r == attack_id_of(pokemon_id@, index),
    {
        let found = lookup_a1(pokemon_id, index);
        if found.is_some() {
            return found;
        }
        let found = lookup_a1a(pokemon_id, index);
        if found.is_some() {
            return found;
        }
        let found = lookup_a2(pokemon_id, index);
        if found.is_some() {
            return found;
        }
        let found = lookup_a2a(pokemon_id, index);
        if found.is_some() {
            return found;
        }
        let found = lookup_a2b(pokemon_id, index);
        if found.is_some() {
            return found;
        }
        let found = lookup_a3(pokemon_id, index);
        if found.is_some() {
            return found;
        }
        let found = lookup_a3a(pokemon_id, index);
        if found.is_some() {
            return found;
        }
        let found = lookup_a3b(pokemon_id, index);
        if found.is_some() {
            return found;
        }
        let found = lookup_a4(pokemon_id, index);
        if found.is_some() {
            return found;
        }
        let found = lookup_a4a(pokemon_id, index);
        if found.is_some() {
            return found;
        }
        let found = lookup_a4b(pokemon_id, index);
        if found.is_some() {
            return found;
        }
        let found = lookup_b1(pokemon_id, index);
        if found.is_some() {
            return found;
        }
        let found = lookup_b1a(pokemon_id, index);
        if found.is_some() {
            return found;
        }
        let found = lookup_pa(pokemon_id, index);
        if found.is_some() {
            return found;
        }
        None
    }
}

} // verus!