//! The emoji table used to render Slack reaction names, and its lookup.

use vstd::prelude::*;

verus! {

/// The reaction names that Slack sends and the emoji each one stands for,
/// in table order.
pub open spec fn emoji_entries() -> Seq<(&'static str, &'static str)> {
    seq![
        ("white_check_mark", "\u{2705}"),
        ("eyes", "\u{1f440}"),
        ("+1", "\u{1f44d}"),
        ("-1", "\u{1f44e}"),
        ("sparkles", "\u{2728}"),
        ("wink", "\u{1f609}"),
        ("heart", "\u{2764}"),
        ("fire", "\u{1f525}"),
        ("confused", "\u{1f615}"),
        ("sob", "\u{1f62d}"),
        ("clap", "\u{1f44f}"),
        ("grinning", "\u{1f600}"),
        ("sweat_smile", "\u{1f605}"),
        ("tada", "\u{1f389}"),
        ("laughing", "\u{1f606}"),
        ("heart_eyes", "\u{1f60d}"),
        ("kissing_heart", "\u{1f618}"),
        ("kissing", "\u{1f617}"),
        ("kissing_smiling_eyes", "\u{1f619}"),
        ("kissing_closed_eyes", "\u{1f61a}"),
        ("stuck_out_tongue_winking_eye", "\u{1f61c}"),
        ("stuck_out_tongue_closed_eyes", "\u{1f61d}"),
        ("stuck_out_tongue", "\u{1f61b}"),
        ("cry", "\u{1f622}"),
        ("scream", "\u{1f631}"),
        ("sweat", "\u{1f613}"),
        ("joy", "\u{1f602}"),
        ("pensive", "\u{1f614}"),
        ("confounded", "\u{1f616}"),
        ("relieved", "\u{1f60c}"),
        ("sunglasses", "\u{1f60e}"),
        ("sleeping", "\u{1f634}"),
        ("astonished", "\u{1f632}"),
        ("worried", "\u{1f61f}"),
        ("frowning", "\u{1f626}"),
        ("anguished", "\u{1f627}"),
        ("grimacing", "\u{1f62c}"),
        ("open_mouth", "\u{1f62e}"),
        ("neutral_face", "\u{1f610}"),
        ("expressionless", "\u{1f611}"),
        ("hushed", "\u{1f62f}"),
        ("sleepy", "\u{1f62a}"),
        ("no_mouth", "\u{1f636}"),
        ("innocent", "\u{1f607}"),
        ("smirk", "\u{1f60f}"),
        ("unamused", "\u{1f612}"),
        ("star-struck", "\u{1f929}"),
        ("thinking", "\u{1f914}"),
        ("face_with_raised_eyebrow", "\u{1f928}"),
        ("shushing_face", "\u{1f92b}"),
        ("money_mouth_face", "\u{1f911}"),
        ("face_with_cowboy_hat", "\u{1f920}"),
        ("drooling_face", "\u{1f924}"),
        ("face_with_symbols_on_mouth", "\u{1f92c}"),
        ("exploding_head", "\u{1f92f}"),
        ("hot_face", "\u{1f975}"),
        ("cold_face", "\u{1f976}"),
        ("woozy_face", "\u{1f974}"),
        ("partying_face", "\u{1f973}"),
        ("nauseated_face", "\u{1f922}"),
        ("face_vomiting", "\u{1f92e}"),
        ("mask", "\u{1f637}"),
        ("face_with_thermometer", "\u{1f912}"),
        ("face_with_head_bandage", "\u{1f915}"),
        ("sneezing_face", "\u{1f927}"),
        ("robot_face", "\u{1f916}"),
        ("smiling_imp", "\u{1f608}"),
        ("imp", "\u{1f47f}"),
        ("skull", "\u{1f480}"),
        ("ghost", "\u{1f47b}"),
        ("alien", "\u{1f47d}"),
        ("space_invader", "\u{1f47e}"),
        ("poop", "\u{1f4a9}"),
        ("clown_face", "\u{1f921}"),
        ("japanese_ogre", "\u{1f479}"),
        ("japanese_goblin", "\u{1f47a}"),
        ("skull_and_crossbones", "\u{2620}"),
        ("pirate_flag", "\u{1f3f4}\u{200d}\u{2620}"),
    ]
}

/// `i` is the first entry of `entries` whose name is `name`.
pub open spec fn is_first_match(
    entries: Seq<(&'static str, &'static str)>,
    i: int,
    name: Seq<char>,
) -> bool {
    &&& 0 <= i < entries.len()
    &&& entries[i].0@ == name
    &&& forall|j: int| 0 <= j < i ==> entries[j].0@ != name
}

/// The emoji that the table gives for `name`, or the empty text when the
/// table has no entry of that name.
pub open spec fn emoji_for(name: Seq<char>) -> Seq<char> {
    if exists|i: int| is_first_match(emoji_entries(), i, name) {
        emoji_entries()[choose|i: int| is_first_match(emoji_entries(), i, name)].1@
    } else {
        Seq::empty()
    }
}

/// Law: no two entries of the table share a name.
pub proof fn lemma_emoji_names_distinct()
    ensures
        forall|i: int, j: int|
            0 <= j < i < emoji_entries().len() ==> #[trigger] emoji_entries()[j].0@
                != #[trigger] emoji_entries()[i].0@,
{
    // Each name is spelled out character by character, so that the solver can
    // tell any two of them apart by their length or by a character.
    reveal_strlit("white_check_mark");
    assert("white_check_mark"@ =~= seq!['w', 'h', 'i', 't', 'e', '_', 'c', 'h', 'e', 'c', 'k', '_', 'm', 'a', 'r', 'k']);
    reveal_strlit("eyes");
    assert("eyes"@ =~= seq!['e', 'y', 'e', 's']);
    reveal_strlit("+1");
    assert("+1"@ =~= seq!['+', '1']);
    reveal_strlit("-1");
    assert("-1"@ =~= seq!['-', '1']);
    reveal_strlit("sparkles");
    assert("sparkles"@ =~= seq!['s', 'p', 'a', 'r', 'k', 'l', 'e', 's']);
    reveal_strlit("wink");
    assert("wink"@ =~= seq!['w', 'i', 'n', 'k']);
    reveal_strlit("heart");
    assert("heart"@ =~= seq!['h', 'e', 'a', 'r', 't']);
    reveal_strlit("fire");
    assert("fire"@ =~= seq!['f', 'i', 'r', 'e']);
    reveal_strlit("confused");
    assert("confused"@ =~= seq!['c', 'o', 'n', 'f', 'u', 's', 'e', 'd']);
    reveal_strlit("sob");
    assert("sob"@ =~= seq!['s', 'o', 'b']);
    reveal_strlit("clap");
    assert("clap"@ =~= seq!['c', 'l', 'a', 'p']);
    reveal_strlit("grinning");
    assert("grinning"@ =~= seq!['g', 'r', 'i', 'n', 'n', 'i', 'n', 'g']);
    reveal_strlit("sweat_smile");
    assert("sweat_smile"@ =~= seq!['s', 'w', 'e', 'a', 't', '_', 's', 'm', 'i', 'l', 'e']);
    reveal_strlit("tada");
    assert("tada"@ =~= seq!['t', 'a', 'd', 'a']);
    reveal_strlit("laughing");
    assert("laughing"@ =~= seq!['l', 'a', 'u', 'g', 'h', 'i', 'n', 'g']);
    reveal_strlit("heart_eyes");
    assert("heart_eyes"@ =~= seq!['h', 'e', 'a', 'r', 't', '_', 'e', 'y', 'e', 's']);
    reveal_strlit("kissing_heart");
    assert("kissing_heart"@ =~= seq!['k', 'i', 's', 's', 'i', 'n', 'g', '_', 'h', 'e', 'a', 'r', 't']);
    reveal_strlit("kissing");
    assert("kissing"@ =~= seq!['k', 'i', 's', 's', 'i', 'n', 'g']);
    reveal_strlit("kissing_smiling_eyes");
    assert("kissing_smiling_eyes"@ =~= seq!['k', 'i', 's', 's', 'i', 'n', 'g', '_', 's', 'm', 'i', 'l', 'i', 'n', 'g', '_', 'e', 'y', 'e', 's']);
    reveal_strlit("kissing_closed_eyes");
    assert("kissing_closed_eyes"@ =~= seq!['k', 'i', 's', 's', 'i', 'n', 'g', '_', 'c', 'l', 'o', 's', 'e', 'd', '_', 'e', 'y', 'e', 's']);
    reveal_strlit("stuck_out_tongue_winking_eye");
    assert("stuck_out_tongue_winking_eye"@ =~= seq!['s', 't', 'u', 'c', 'k', '_', 'o', 'u', 't', '_', 't', 'o', 'n', 'g', 'u', 'e', '_', 'w', 'i', 'n', 'k', 'i', 'n', 'g', '_', 'e', 'y', 'e']);
    reveal_strlit("stuck_out_tongue_closed_eyes");
    assert("stuck_out_tongue_closed_eyes"@ =~= seq!['s', 't', 'u', 'c', 'k', '_', 'o', 'u', 't', '_', 't', 'o', 'n', 'g', 'u', 'e', '_', 'c', 'l', 'o', 's', 'e', 'd', '_', 'e', 'y', 'e', 's']);
    reveal_strlit("stuck_out_tongue");
    assert("stuck_out_tongue"@ =~= seq!['s', 't', 'u', 'c', 'k', '_', 'o', 'u', 't', '_', 't', 'o', 'n', 'g', 'u', 'e']);
    reveal_strlit("cry");
    assert("cry"@ =~= seq!['c', 'r', 'y']);
    reveal_strlit("scream");
    assert("scream"@ =~= seq!['s', 'c', 'r', 'e', 'a', 'm']);
    reveal_strlit("sweat");
    assert("sweat"@ =~= seq!['s', 'w', 'e', 'a', 't']);
    reveal_strlit("joy");
    assert("joy"@ =~= seq!['j', 'o', 'y']);
    reveal_strlit("pensive");
    assert("pensive"@ =~= seq!['p', 'e', 'n', 's', 'i', 'v', 'e']);
    reveal_strlit("confounded");
    assert("confounded"@ =~= seq!['c', 'o', 'n', 'f', 'o', 'u', 'n', 'd', 'e', 'd']);
    reveal_strlit("relieved");
    assert("relieved"@ =~= seq!['r', 'e', 'l', 'i', 'e', 'v', 'e', 'd']);
    reveal_strlit("sunglasses");
    assert("sunglasses"@ =~= seq!['s', 'u', 'n', 'g', 'l', 'a', 's', 's', 'e', 's']);
    reveal_strlit("sleeping");
    assert("sleeping"@ =~= seq!['s', 'l', 'e', 'e', 'p', 'i', 'n', 'g']);
    reveal_strlit("astonished");
    assert("astonished"@ =~= seq!['a', 's', 't', 'o', 'n', 'i', 's', 'h', 'e', 'd']);
    reveal_strlit("worried");
    assert("worried"@ =~= seq!['w', 'o', 'r', 'r', 'i', 'e', 'd']);
    reveal_strlit("frowning");
    assert("frowning"@ =~= seq!['f', 'r', 'o', 'w', 'n', 'i', 'n', 'g']);
    reveal_strlit("anguished");
    assert("anguished"@ =~= seq!['a', 'n', 'g', 'u', 'i', 's', 'h', 'e', 'd']);
    reveal_strlit("grimacing");
    assert("grimacing"@ =~= seq!['g', 'r', 'i', 'm', 'a', 'c', 'i', 'n', 'g']);
    reveal_strlit("open_mouth");
    assert("open_mouth"@ =~= seq!['o', 'p', 'e', 'n', '_', 'm', 'o', 'u', 't', 'h']);
    reveal_strlit("neutral_face");
    assert("neutral_face"@ =~= seq!['n', 'e', 'u', 't', 'r', 'a', 'l', '_', 'f', 'a', 'c', 'e']);
    reveal_strlit("expressionless");
    assert("expressionless"@ =~= seq!['e', 'x', 'p', 'r', 'e', 's', 's', 'i', 'o', 'n', 'l', 'e', 's', 's']);
    reveal_strlit("hushed");
    assert("hushed"@ =~= seq!['h', 'u', 's', 'h', 'e', 'd']);
    reveal_strlit("sleepy");
    assert("sleepy"@ =~= seq!['s', 'l', 'e', 'e', 'p', 'y']);
    reveal_strlit("no_mouth");
    assert("no_mouth"@ =~= seq!['n', 'o', '_', 'm', 'o', 'u', 't', 'h']);
    reveal_strlit("innocent");
    assert("innocent"@ =~= seq!['i', 'n', 'n', 'o', 'c', 'e', 'n', 't']);
    reveal_strlit("smirk");
    assert("smirk"@ =~= seq!['s', 'm', 'i', 'r', 'k']);
    reveal_strlit("unamused");
    assert("unamused"@ =~= seq!['u', 'n', 'a', 'm', 'u', 's', 'e', 'd']);
    reveal_strlit("star-struck");
    assert("star-struck"@ =~= seq!['s', 't', 'a', 'r', '-', 's', 't', 'r', 'u', 'c', 'k']);
    reveal_strlit("thinking");
    assert("thinking"@ =~= seq!['t', 'h', 'i', 'n', 'k', 'i', 'n', 'g']);
    reveal_strlit("face_with_raised_eyebrow");
    assert("face_with_raised_eyebrow"@ =~= seq!['f', 'a', 'c', 'e', '_', 'w', 'i', 't', 'h', '_', 'r', 'a', 'i', 's', 'e', 'd', '_', 'e', 'y', 'e', 'b', 'r', 'o', 'w']);
    reveal_strlit("shushing_face");
    assert("shushing_face"@ =~= seq!['s', 'h', 'u', 's', 'h', 'i', 'n', 'g', '_', 'f', 'a', 'c', 'e']);
    reveal_strlit("money_mouth_face");
    assert("money_mouth_face"@ =~= seq!['m', 'o', 'n', 'e', 'y', '_', 'm', 'o', 'u', 't', 'h', '_', 'f', 'a', 'c', 'e']);
    reveal_strlit("face_with_cowboy_hat");
    assert("face_with_cowboy_hat"@ =~= seq!['f', 'a', 'c', 'e', '_', 'w', 'i', 't', 'h', '_', 'c', 'o', 'w', 'b', 'o', 'y', '_', 'h', 'a', 't']);
    reveal_strlit("drooling_face");
    assert("drooling_face"@ =~= seq!['d', 'r', 'o', 'o', 'l', 'i', 'n', 'g', '_', 'f', 'a', 'c', 'e']);
    reveal_strlit("face_with_symbols_on_mouth");
    assert("face_with_symbols_on_mouth"@ =~= seq!['f', 'a', 'c', 'e', '_', 'w', 'i', 't', 'h', '_', 's', 'y', 'm', 'b', 'o', 'l', 's', '_', 'o', 'n', '_', 'm', 'o', 'u', 't', 'h']);
    reveal_strlit("exploding_head");
    assert("exploding_head"@ =~= seq!['e', 'x', 'p', 'l', 'o', 'd', 'i', 'n', 'g', '_', 'h', 'e', 'a', 'd']);
    reveal_strlit("hot_face");
    assert("hot_face"@ =~= seq!['h', 'o', 't', '_', 'f', 'a', 'c', 'e']);
    reveal_strlit("cold_face");
    assert("cold_face"@ =~= seq!['c', 'o', 'l', 'd', '_', 'f', 'a', 'c', 'e']);
    reveal_strlit("woozy_face");
    assert("woozy_face"@ =~= seq!['w', 'o', 'o', 'z', 'y', '_', 'f', 'a', 'c', 'e']);
    reveal_strlit("partying_face");
    assert("partying_face"@ =~= seq!['p', 'a', 'r', 't', 'y', 'i', 'n', 'g', '_', 'f', 'a', 'c', 'e']);
    reveal_strlit("nauseated_face");
    assert("nauseated_face"@ =~= seq!['n', 'a', 'u', 's', 'e', 'a', 't', 'e', 'd', '_', 'f', 'a', 'c', 'e']);
    reveal_strlit("face_vomiting");
    assert("face_vomiting"@ =~= seq!['f', 'a', 'c', 'e', '_', 'v', 'o', 'm', 'i', 't', 'i', 'n', 'g']);
    reveal_strlit("mask");
    assert("mask"@ =~= seq!['m', 'a', 's', 'k']);
    reveal_strlit("face_with_thermometer");
    assert("face_with_thermometer"@ =~= seq!['f', 'a', 'c', 'e', '_', 'w', 'i', 't', 'h', '_', 't', 'h', 'e', 'r', 'm', 'o', 'm', 'e', 't', 'e', 'r']);
    reveal_strlit("face_with_head_bandage");
    assert("face_with_head_bandage"@ =~= seq!['f', 'a', 'c', 'e', '_', 'w', 'i', 't', 'h', '_', 'h', 'e', 'a', 'd', '_', 'b', 'a', 'n', 'd', 'a', 'g', 'e']);
    reveal_strlit("sneezing_face");
    assert("sneezing_face"@ =~= seq!['s', 'n', 'e', 'e', 'z', 'i', 'n', 'g', '_', 'f', 'a', 'c', 'e']);
    reveal_strlit("robot_face");
    assert("robot_face"@ =~= seq!['r', 'o', 'b', 'o', 't', '_', 'f', 'a', 'c', 'e']);
    reveal_strlit("smiling_imp");
    assert("smiling_imp"@ =~= seq!['s', 'm', 'i', 'l', 'i', 'n', 'g', '_', 'i', 'm', 'p']);
    reveal_strlit("imp");
    assert("imp"@ =~= seq!['i', 'm', 'p']);
    reveal_strlit("skull");
    assert("skull"@ =~= seq!['s', 'k', 'u', 'l', 'l']);
    reveal_strlit("ghost");
    assert("ghost"@ =~= seq!['g', 'h', 'o', 's', 't']);
    reveal_strlit("alien");
    assert("alien"@ =~= seq!['a', 'l', 'i', 'e', 'n']);
    reveal_strlit("space_invader");
    assert("space_invader"@ =~= seq!['s', 'p', 'a', 'c', 'e', '_', 'i', 'n', 'v', 'a', 'd', 'e', 'r']);
    reveal_strlit("poop");
    assert("poop"@ =~= seq!['p', 'o', 'o', 'p']);
    reveal_strlit("clown_face");
    assert("clown_face"@ =~= seq!['c', 'l', 'o', 'w', 'n', '_', 'f', 'a', 'c', 'e']);
    reveal_strlit("japanese_ogre");
    assert("japanese_ogre"@ =~= seq!['j', 'a', 'p', 'a', 'n', 'e', 's', 'e', '_', 'o', 'g', 'r', 'e']);
    reveal_strlit("japanese_goblin");
    assert("japanese_goblin"@ =~= seq!['j', 'a', 'p', 'a', 'n', 'e', 's', 'e', '_', 'g', 'o', 'b', 'l', 'i', 'n']);
    reveal_strlit("skull_and_crossbones");
    assert("skull_and_crossbones"@ =~= seq!['s', 'k', 'u', 'l', 'l', '_', 'a', 'n', 'd', '_', 'c', 'r', 'o', 's', 's', 'b', 'o', 'n', 'e', 's']);
    reveal_strlit("pirate_flag");
    assert("pirate_flag"@ =~= seq!['p', 'i', 'r', 'a', 't', 'e', '_', 'f', 'l', 'a', 'g']);
}

/// Law: no two entries of the table share an emoji, so an emoji names its
/// reaction.
pub proof fn lemma_emoji_values_distinct()
    ensures
        forall|i: int, j: int|
            0 <= j < i < emoji_entries().len() ==> #[trigger] emoji_entries()[j].1@
                != #[trigger] emoji_entries()[i].1@,
{
    // Each emoji is spelled out code point by code point, with its first one
    // named, so that the solver can tell any two of them apart.
    reveal_strlit("\u{2705}");
    assert("\u{2705}"@ =~= seq!['\u{2705}'] && "\u{2705}"@[0] == '\u{2705}');
    reveal_strlit("\u{1f440}");
    assert("\u{1f440}"@ =~= seq!['\u{1f440}'] && "\u{1f440}"@[0] == '\u{1f440}');
    reveal_strlit("\u{1f44d}");
    assert("\u{1f44d}"@ =~= seq!['\u{1f44d}'] && "\u{1f44d}"@[0] == '\u{1f44d}');
    reveal_strlit("\u{1f44e}");
    assert("\u{1f44e}"@ =~= seq!['\u{1f44e}'] && "\u{1f44e}"@[0] == '\u{1f44e}');
    reveal_strlit("\u{2728}");
    assert("\u{2728}"@ =~= seq!['\u{2728}'] && "\u{2728}"@[0] == '\u{2728}');
    reveal_strlit("\u{1f609}");
    assert("\u{1f609}"@ =~= seq!['\u{1f609}'] && "\u{1f609}"@[0] == '\u{1f609}');
    reveal_strlit("\u{2764}");
    assert("\u{2764}"@ =~= seq!['\u{2764}'] && "\u{2764}"@[0] == '\u{2764}');
    reveal_strlit("\u{1f525}");
    assert("\u{1f525}"@ =~= seq!['\u{1f525}'] && "\u{1f525}"@[0] == '\u{1f525}');
    reveal_strlit("\u{1f615}");
    assert("\u{1f615}"@ =~= seq!['\u{1f615}'] && "\u{1f615}"@[0] == '\u{1f615}');
    reveal_strlit("\u{1f62d}");
    assert("\u{1f62d}"@ =~= seq!['\u{1f62d}'] && "\u{1f62d}"@[0] == '\u{1f62d}');
    reveal_strlit("\u{1f44f}");
    assert("\u{1f44f}"@ =~= seq!['\u{1f44f}'] && "\u{1f44f}"@[0] == '\u{1f44f}');
    reveal_strlit("\u{1f600}");
    assert("\u{1f600}"@ =~= seq!['\u{1f600}'] && "\u{1f600}"@[0] == '\u{1f600}');
    reveal_strlit("\u{1f605}");
    assert("\u{1f605}"@ =~= seq!['\u{1f605}'] && "\u{1f605}"@[0] == '\u{1f605}');
    reveal_strlit("\u{1f389}");
    assert("\u{1f389}"@ =~= seq!['\u{1f389}'] && "\u{1f389}"@[0] == '\u{1f389}');
    reveal_strlit("\u{1f606}");
    assert("\u{1f606}"@ =~= seq!['\u{1f606}'] && "\u{1f606}"@[0] == '\u{1f606}');
    reveal_strlit("\u{1f60d}");
    assert("\u{1f60d}"@ =~= seq!['\u{1f60d}'] && "\u{1f60d}"@[0] == '\u{1f60d}');
    reveal_strlit("\u{1f618}");
    assert("\u{1f618}"@ =~= seq!['\u{1f618}'] && "\u{1f618}"@[0] == '\u{1f618}');
    reveal_strlit("\u{1f617}");
    assert("\u{1f617}"@ =~= seq!['\u{1f617}'] && "\u{1f617}"@[0] == '\u{1f617}');
    reveal_strlit("\u{1f619}");
    assert("\u{1f619}"@ =~= seq!['\u{1f619}'] && "\u{1f619}"@[0] == '\u{1f619}');
    reveal_strlit("\u{1f61a}");
    assert("\u{1f61a}"@ =~= seq!['\u{1f61a}'] && "\u{1f61a}"@[0] == '\u{1f61a}');
    reveal_strlit("\u{1f61c}");
    assert("\u{1f61c}"@ =~= seq!['\u{1f61c}'] && "\u{1f61c}"@[0] == '\u{1f61c}');
    reveal_strlit("\u{1f61d}");
    assert("\u{1f61d}"@ =~= seq!['\u{1f61d}'] && "\u{1f61d}"@[0] == '\u{1f61d}');
    reveal_strlit("\u{1f61b}");
    assert("\u{1f61b}"@ =~= seq!['\u{1f61b}'] && "\u{1f61b}"@[0] == '\u{1f61b}');
    reveal_strlit("\u{1f622}");
    assert("\u{1f622}"@ =~= seq!['\u{1f622}'] && "\u{1f622}"@[0] == '\u{1f622}');
    reveal_strlit("\u{1f631}");
    assert("\u{1f631}"@ =~= seq!['\u{1f631}'] && "\u{1f631}"@[0] == '\u{1f631}');
    reveal_strlit("\u{1f613}");
    assert("\u{1f613}"@ =~= seq!['\u{1f613}'] && "\u{1f613}"@[0] == '\u{1f613}');
    reveal_strlit("\u{1f602}");
    assert("\u{1f602}"@ =~= seq!['\u{1f602}'] && "\u{1f602}"@[0] == '\u{1f602}');
    reveal_strlit("\u{1f614}");
    assert("\u{1f614}"@ =~= seq!['\u{1f614}'] && "\u{1f614}"@[0] == '\u{1f614}');
    reveal_strlit("\u{1f616}");
    assert("\u{1f616}"@ =~= seq!['\u{1f616}'] && "\u{1f616}"@[0] == '\u{1f616}');
    reveal_strlit("\u{1f60c}");
    assert("\u{1f60c}"@ =~= seq!['\u{1f60c}'] && "\u{1f60c}"@[0] == '\u{1f60c}');
    reveal_strlit("\u{1f60e}");
    assert("\u{1f60e}"@ =~= seq!['\u{1f60e}'] && "\u{1f60e}"@[0] == '\u{1f60e}');
    reveal_strlit("\u{1f634}");
    assert("\u{1f634}"@ =~= seq!['\u{1f634}'] && "\u{1f634}"@[0] == '\u{1f634}');
    reveal_strlit("\u{1f632}");
    assert("\u{1f632}"@ =~= seq!['\u{1f632}'] && "\u{1f632}"@[0] == '\u{1f632}');
    reveal_strlit("\u{1f61f}");
    assert("\u{1f61f}"@ =~= seq!['\u{1f61f}'] && "\u{1f61f}"@[0] == '\u{1f61f}');
    reveal_strlit("\u{1f626}");
    assert("\u{1f626}"@ =~= seq!['\u{1f626}'] && "\u{1f626}"@[0] == '\u{1f626}');
    reveal_strlit("\u{1f627}");
    assert("\u{1f627}"@ =~= seq!['\u{1f627}'] && "\u{1f627}"@[0] == '\u{1f627}');
    reveal_strlit("\u{1f62c}");
    assert("\u{1f62c}"@ =~= seq!['\u{1f62c}'] && "\u{1f62c}"@[0] == '\u{1f62c}');
    reveal_strlit("\u{1f62e}");
    assert("\u{1f62e}"@ =~= seq!['\u{1f62e}'] && "\u{1f62e}"@[0] == '\u{1f62e}');
    reveal_strlit("\u{1f610}");
    assert("\u{1f610}"@ =~= seq!['\u{1f610}'] && "\u{1f610}"@[0] == '\u{1f610}');
    reveal_strlit("\u{1f611}");
    assert("\u{1f611}"@ =~= seq!['\u{1f611}'] && "\u{1f611}"@[0] == '\u{1f611}');
    reveal_strlit("\u{1f62f}");
    assert("\u{1f62f}"@ =~= seq!['\u{1f62f}'] && "\u{1f62f}"@[0] == '\u{1f62f}');
    reveal_strlit("\u{1f62a}");
    assert("\u{1f62a}"@ =~= seq!['\u{1f62a}'] && "\u{1f62a}"@[0] == '\u{1f62a}');
    reveal_strlit("\u{1f636}");
    assert("\u{1f636}"@ =~= seq!['\u{1f636}'] && "\u{1f636}"@[0] == '\u{1f636}');
    reveal_strlit("\u{1f607}");
    assert("\u{1f607}"@ =~= seq!['\u{1f607}'] && "\u{1f607}"@[0] == '\u{1f607}');
    reveal_strlit("\u{1f60f}");
    assert("\u{1f60f}"@ =~= seq!['\u{1f60f}'] && "\u{1f60f}"@[0] == '\u{1f60f}');
    reveal_strlit("\u{1f612}");
    assert("\u{1f612}"@ =~= seq!['\u{1f612}'] && "\u{1f612}"@[0] == '\u{1f612}');
    reveal_strlit("\u{1f929}");
    assert("\u{1f929}"@ =~= seq!['\u{1f929}'] && "\u{1f929}"@[0] == '\u{1f929}');
    reveal_strlit("\u{1f914}");
    assert("\u{1f914}"@ =~= seq!['\u{1f914}'] && "\u{1f914}"@[0] == '\u{1f914}');
    reveal_strlit("\u{1f928}");
    assert("\u{1f928}"@ =~= seq!['\u{1f928}'] && "\u{1f928}"@[0] == '\u{1f928}');
    reveal_strlit("\u{1f92b}");
    assert("\u{1f92b}"@ =~= seq!['\u{1f92b}'] && "\u{1f92b}"@[0] == '\u{1f92b}');
    reveal_strlit("\u{1f911}");
    assert("\u{1f911}"@ =~= seq!['\u{1f911}'] && "\u{1f911}"@[0] == '\u{1f911}');
    reveal_strlit("\u{1f920}");
    assert("\u{1f920}"@ =~= seq!['\u{1f920}'] && "\u{1f920}"@[0] == '\u{1f920}');
    reveal_strlit("\u{1f924}");
    assert("\u{1f924}"@ =~= seq!['\u{1f924}'] && "\u{1f924}"@[0] == '\u{1f924}');
    reveal_strlit("\u{1f92c}");
    assert("\u{1f92c}"@ =~= seq!['\u{1f92c}'] && "\u{1f92c}"@[0] == '\u{1f92c}');
    reveal_strlit("\u{1f92f}");
    assert("\u{1f92f}"@ =~= seq!['\u{1f92f}'] && "\u{1f92f}"@[0] == '\u{1f92f}');
    reveal_strlit("\u{1f975}");
    assert("\u{1f975}"@ =~= seq!['\u{1f975}'] && "\u{1f975}"@[0] == '\u{1f975}');
    reveal_strlit("\u{1f976}");
    assert("\u{1f976}"@ =~= seq!['\u{1f976}'] && "\u{1f976}"@[0] == '\u{1f976}');
    reveal_strlit("\u{1f974}");
    assert("\u{1f974}"@ =~= seq!['\u{1f974}'] && "\u{1f974}"@[0] == '\u{1f974}');
    reveal_strlit("\u{1f973}");
    assert("\u{1f973}"@ =~= seq!['\u{1f973}'] && "\u{1f973}"@[0] == '\u{1f973}');
    reveal_strlit("\u{1f922}");
    assert("\u{1f922}"@ =~= seq!['\u{1f922}'] && "\u{1f922}"@[0] == '\u{1f922}');
    reveal_strlit("\u{1f92e}");
    assert("\u{1f92e}"@ =~= seq!['\u{1f92e}'] && "\u{1f92e}"@[0] == '\u{1f92e}');
    reveal_strlit("\u{1f637}");
    assert("\u{1f637}"@ =~= seq!['\u{1f637}'] && "\u{1f637}"@[0] == '\u{1f637}');
    reveal_strlit("\u{1f912}");
    assert("\u{1f912}"@ =~= seq!['\u{1f912}'] && "\u{1f912}"@[0] == '\u{1f912}');
    reveal_strlit("\u{1f915}");
    assert("\u{1f915}"@ =~= seq!['\u{1f915}'] && "\u{1f915}"@[0] == '\u{1f915}');
    reveal_strlit("\u{1f927}");
    assert("\u{1f927}"@ =~= seq!['\u{1f927}'] && "\u{1f927}"@[0] == '\u{1f927}');
    reveal_strlit("\u{1f916}");
    assert("\u{1f916}"@ =~= seq!['\u{1f916}'] && "\u{1f916}"@[0] == '\u{1f916}');
    reveal_strlit("\u{1f608}");
    assert("\u{1f608}"@ =~= seq!['\u{1f608}'] && "\u{1f608}"@[0] == '\u{1f608}');
    reveal_strlit("\u{1f47f}");
    assert("\u{1f47f}"@ =~= seq!['\u{1f47f}'] && "\u{1f47f}"@[0] == '\u{1f47f}');
    reveal_strlit("\u{1f480}");
    assert("\u{1f480}"@ =~= seq!['\u{1f480}'] && "\u{1f480}"@[0] == '\u{1f480}');
    reveal_strlit("\u{1f47b}");
    assert("\u{1f47b}"@ =~= seq!['\u{1f47b}'] && "\u{1f47b}"@[0] == '\u{1f47b}');
    reveal_strlit("\u{1f47d}");
    assert("\u{1f47d}"@ =~= seq!['\u{1f47d}'] && "\u{1f47d}"@[0] == '\u{1f47d}');
    reveal_strlit("\u{1f47e}");
    assert("\u{1f47e}"@ =~= seq!['\u{1f47e}'] && "\u{1f47e}"@[0] == '\u{1f47e}');
    reveal_strlit("\u{1f4a9}");
    assert("\u{1f4a9}"@ =~= seq!['\u{1f4a9}'] && "\u{1f4a9}"@[0] == '\u{1f4a9}');
    reveal_strlit("\u{1f921}");
    assert("\u{1f921}"@ =~= seq!['\u{1f921}'] && "\u{1f921}"@[0] == '\u{1f921}');
    reveal_strlit("\u{1f479}");
    assert("\u{1f479}"@ =~= seq!['\u{1f479}'] && "\u{1f479}"@[0] == '\u{1f479}');
    reveal_strlit("\u{1f47a}");
    assert("\u{1f47a}"@ =~= seq!['\u{1f47a}'] && "\u{1f47a}"@[0] == '\u{1f47a}');
    reveal_strlit("\u{2620}");
    assert("\u{2620}"@ =~= seq!['\u{2620}'] && "\u{2620}"@[0] == '\u{2620}');
    reveal_strlit("\u{1f3f4}\u{200d}\u{2620}");
    assert("\u{1f3f4}\u{200d}\u{2620}"@ =~= seq!['\u{1f3f4}', '\u{200d}', '\u{2620}'] && "\u{1f3f4}\u{200d}\u{2620}"@[0] == '\u{1f3f4}');
}

/// Law: looking up the name of any entry of the table gives that entry's
/// emoji.
pub proof fn lemma_emoji_entry_found(i: int)
    requires
        0 <= i < emoji_entries().len(),
    ensures
        emoji_for(emoji_entries()[i].0@) == emoji_entries()[i].1@,
{
    lemma_emoji_names_distinct();
    let name = emoji_entries()[i].0@;
    assert(is_first_match(emoji_entries(), i, name));
    let c = choose|c: int| is_first_match(emoji_entries(), c, name);
    assert(c == i);
}

/// Law: two reaction names that the table gives the same, non-empty emoji
/// are the same name.
pub proof fn lemma_emoji_determines_name(a: Seq<char>, b: Seq<char>)
    requires
        emoji_for(a).len() > 0,
        emoji_for(a) == emoji_for(b),
    ensures
        a == b,
{
    lemma_emoji_values_distinct();
    let i = choose|i: int| is_first_match(emoji_entries(), i, a);
    let j = choose|j: int| is_first_match(emoji_entries(), j, b);
    assert(is_first_match(emoji_entries(), i, a));
    assert(is_first_match(emoji_entries(), j, b));
    assert(i == j) by {
        if i < j {
            assert(emoji_entries()[i].1@ != emoji_entries()[j].1@);
        } else if j < i {
            assert(emoji_entries()[j].1@ != emoji_entries()[i].1@);
        }
    }
}

/// The table of reaction names and their emoji, `emoji_entries`, as a vector.
pub fn emoji_table() -> (res: Vec<(&'static str, &'static str)>)
    ensures
        res@ == emoji_entries(),
{
    vec![
        ("white_check_mark", "\u{2705}"),
        ("eyes", "\u{1f440}"),
        ("+1", "\u{1f44d}"),
        ("-1", "\u{1f44e}"),
        ("sparkles", "\u{2728}"),
        ("wink", "\u{1f609}"),
        ("heart", "\u{2764}"),
        ("fire", "\u{1f525}"),
        ("confused", "\u{1f615}"),
        ("sob", "\u{1f62d}"),
        ("clap", "\u{1f44f}"),
        ("grinning", "\u{1f600}"),
        ("sweat_smile", "\u{1f605}"),
        ("tada", "\u{1f389}"),
        ("laughing", "\u{1f606}"),
        ("heart_eyes", "\u{1f60d}"),
        ("kissing_heart", "\u{1f618}"),
        ("kissing", "\u{1f617}"),
        ("kissing_smiling_eyes", "\u{1f619}"),
        ("kissing_closed_eyes", "\u{1f61a}"),
        ("stuck_out_tongue_winking_eye", "\u{1f61c}"),
        ("stuck_out_tongue_closed_eyes", "\u{1f61d}"),
        ("stuck_out_tongue", "\u{1f61b}"),
        ("cry", "\u{1f622}"),
        ("scream", "\u{1f631}"),
        ("sweat", "\u{1f613}"),
        ("joy", "\u{1f602}"),
        ("pensive", "\u{1f614}"),
        ("confounded", "\u{1f616}"),
        ("relieved", "\u{1f60c}"),
        ("sunglasses", "\u{1f60e}"),
        ("sleeping", "\u{1f634}"),
        ("astonished", "\u{1f632}"),
        ("worried", "\u{1f61f}"),
        ("frowning", "\u{1f626}"),
        ("anguished", "\u{1f627}"),
        ("grimacing", "\u{1f62c}"),
        ("open_mouth", "\u{1f62e}"),
        ("neutral_face", "\u{1f610}"),
        ("expressionless", "\u{1f611}"),
        ("hushed", "\u{1f62f}"),
        ("sleepy", "\u{1f62a}"),
        ("no_mouth", "\u{1f636}"),
        ("innocent", "\u{1f607}"),
        ("smirk", "\u{1f60f}"),
        ("unamused", "\u{1f612}"),
        ("star-struck", "\u{1f929}"),
        ("thinking", "\u{1f914}"),
        ("face_with_raised_eyebrow", "\u{1f928}"),
        ("shushing_face", "\u{1f92b}"),
        ("money_mouth_face", "\u{1f911}"),
        ("face_with_cowboy_hat", "\u{1f920}"),
        ("drooling_face", "\u{1f924}"),
        ("face_with_symbols_on_mouth", "\u{1f92c}"),
        ("exploding_head", "\u{1f92f}"),
        ("hot_face", "\u{1f975}"),
        ("cold_face", "\u{1f976}"),
        ("woozy_face", "\u{1f974}"),
        ("partying_face", "\u{1f973}"),
        ("nauseated_face", "\u{1f922}"),
        ("face_vomiting", "\u{1f92e}"),
        ("mask", "\u{1f637}"),
        ("face_with_thermometer", "\u{1f912}"),
        ("face_with_head_bandage", "\u{1f915}"),
        ("sneezing_face", "\u{1f927}"),
        ("robot_face", "\u{1f916}"),
        ("smiling_imp", "\u{1f608}"),
        ("imp", "\u{1f47f}"),
        ("skull", "\u{1f480}"),
        ("ghost", "\u{1f47b}"),
        ("alien", "\u{1f47d}"),
        ("space_invader", "\u{1f47e}"),
        ("poop", "\u{1f4a9}"),
        ("clown_face", "\u{1f921}"),
        ("japanese_ogre", "\u{1f479}"),
        ("japanese_goblin", "\u{1f47a}"),
        ("skull_and_crossbones", "\u{2620}"),
        ("pirate_flag", "\u{1f3f4}\u{200d}\u{2620}"),
    ]
}

/// The emoji for a Slack reaction name, or `""` for a name the table does not
/// hold.
pub fn get_emoji(key: &str) -> (res: &str)
    ensures
        res@ == emoji_for(key@),
{
    let table = emoji_table();
    let wanted = key.to_owned();
    let mut i: usize = 0;
    while i < table.len()
        invariant
            table@ == emoji_entries(),
            wanted@ == key@,
            0 <= i <= table.len(),
            forall|j: int| 0 <= j < i ==> table@[j].0@ != key@,
        decreases table.len() - i,
    {
        let entry = table[i];
        let name = entry.0.to_owned();
        if name == wanted {
            proof {
                assert(is_first_match(emoji_entries(), i as int, key@));
                let c = choose|c: int| is_first_match(emoji_entries(), c, key@);
                assert(c == i);
            }
            return entry.1;
        }
        i = i + 1;
    }
    proof {
        reveal_strlit("");
    }
    ""
}

} // verus!
