//! The stored form of a session: one item of named attributes per battle.
//!
//! The battle state is stored as the resolution engine's own serialisation
//! of it, and the turn log as a serialisation that is made and read
//! elsewhere; both pass through here as texts. The pending action of each
//! side is filled in by the session layer, between two resolutions of the
//! engine, so the item holds the two slots beside the engine's text.

use crate::battle::PlayerAction;
use crate::ids::{hyphenated, parsed_uuid, BattleId, PlayerId};
use crate::numbers::{
    i64_to_string, lemma_i64_round_trip, lemma_u64_round_trip, parse_i64, parse_u64, parsed_i64,
    parsed_u64, signed_decimal,
};
use crate::router::{strip_prefix, without_prefix};
use crate::text::{decimal, decimal_string, join2};
use crate::types::StoredBattle;
use vstd::prelude::*;

verus! {

/// The value of an attribute, as a mathematical value.
pub enum ValueModel {
    S(Seq<char>),
    N(Seq<char>),
    Other,
}

/// The value of an attribute of a stored item.
#[derive(Debug)]
pub enum AttributeValue {
    /// A text.
    S(String),
    /// A number, as its decimal text.
    N(String),
    /// A value of any other kind.
    Other,
}

impl View for AttributeValue {
    type V = ValueModel;

    open spec fn view(&self) -> ValueModel {
        match self {
            AttributeValue::S(text) => ValueModel::S(text@),
            AttributeValue::N(text) => ValueModel::N(text@),
            AttributeValue::Other => ValueModel::Other,
        }
    }
}

/// A named attribute of a stored item.
#[derive(Debug)]
pub struct Attribute {
    pub name: String,
    pub value: AttributeValue,
}

impl View for Attribute {
    type V = (Seq<char>, ValueModel);

    open spec fn view(&self) -> (Seq<char>, ValueModel) {
        (self.name@, self.value@)
    }
}

impl DeepView for Attribute {
    type V = (Seq<char>, ValueModel);

    open spec fn deep_view(&self) -> (Seq<char>, ValueModel) {
        self@
    }
}

/// A stored item, as a mathematical value: its attributes in order.
pub type ItemModel = Seq<(Seq<char>, ValueModel)>;

/// The value of the first attribute of an item with the given name.
pub open spec fn attribute(item: ItemModel, name: Seq<char>) -> Option<ValueModel>
    decreases item.len(),
{
    if item.len() == 0 {
        None
    } else if item[0].0 == name {
        Some(item[0].1)
    } else {
        attribute(item.drop_first(), name)
    }
}

/// The text of an attribute, if the item has the attribute and it is a
/// text.
pub open spec fn text_of(item: ItemModel, name: Seq<char>) -> Option<Seq<char>> {
    match attribute(item, name) {
        Some(ValueModel::S(text)) => Some(text),
        _ => None,
    }
}

/// The decimal text of an attribute, if the item has the attribute and it
/// is a number.
pub open spec fn number_of(item: ItemModel, name: Seq<char>) -> Option<Seq<char>> {
    match attribute(item, name) {
        Some(ValueModel::N(text)) => Some(text),
        _ => None,
    }
}

/// The time that an attribute holds, if the item has the attribute, it is a
/// number, and the number is a signed whole number of at most 64 bits.
pub open spec fn time_of(item: ItemModel, name: Seq<char>) -> Option<i64> {
    match number_of(item, name) {
        Some(text) => parsed_i64(text),
        None => None,
    }
}

/// What is read from a stored item, as a mathematical value.
pub struct StoredItemModel {
    pub battle_id: u128,
    pub player1_id: Seq<char>,
    pub player2_id: Seq<char>,
    pub created_at: i64,
    pub last_updated: i64,
    pub version: u64,
    pub battle_state: Seq<char>,
    pub action_queue: Seq<Option<PlayerAction>>,
    pub turn_logs: Option<Seq<char>>,
}

/// What is read from a stored item: the fields of the record, with the
/// battle state and the turn log still in their serialised form.
#[derive(Debug)]
pub struct StoredItem {
    pub battle_id: BattleId,
    pub player1_id: PlayerId,
    pub player2_id: PlayerId,
    pub created_at: i64,
    pub last_updated: i64,
    pub version: u64,
    /// The resolution engine's serialisation of the battle.
    pub battle_state: String,
    /// The pending action of each side. They take the place of the slots
    /// in the engine's serialisation, which may be older.
    pub action_queue: [Option<PlayerAction>; 2],
    /// The serialisation of the turn log, if the item has one.
    pub turn_logs: Option<String>,
}

impl View for StoredItem {
    type V = StoredItemModel;

    open spec fn view(&self) -> StoredItemModel {
        StoredItemModel {
            battle_id: self.battle_id.0,
            player1_id: self.player1_id@,
            player2_id: self.player2_id@,
            created_at: self.created_at,
            last_updated: self.last_updated,
            version: self.version,
            battle_state: self.battle_state@,
            action_queue: self.action_queue@,
            turn_logs: self.turn_logs.deep_view(),
        }
    }
}

/// The text that a pending-action slot is stored as.
pub open spec fn slot_text(slot: Option<PlayerAction>) -> Seq<char> {
    match slot {
        None => "none"@,
        Some(PlayerAction::Forfeit) => "forfeit"@,
        Some(PlayerAction::UseMove { move_index }) => "move:"@ + decimal(move_index as nat),
        Some(PlayerAction::SwitchPokemon { team_index }) => "switch:"@ + decimal(
            team_index as nat,
        ),
    }
}

/// The index that a text writes, if it writes an unsigned number that an
/// index can hold.
pub open spec fn index_of_text(text: Seq<char>) -> Option<usize> {
    match parsed_u64(text) {
        Some(n) => if n <= usize::MAX {
            Some(n as usize)
        } else {
            None
        },
        None => None,
    }
}

/// The pending-action slot that a text stands for, if it stands for one:
/// `none`, `forfeit`, or `move:` or `switch:` with an index behind it.
pub open spec fn text_slot(text: Seq<char>) -> Option<Option<PlayerAction>> {
    if text == "none"@ {
        Some(None)
    } else if text == "forfeit"@ {
        Some(Some(PlayerAction::Forfeit))
    } else {
        match without_prefix(text, "move:"@) {
            Some(index) => match index_of_text(index) {
                Some(move_index) => Some(Some(PlayerAction::UseMove { move_index })),
                None => None,
            },
            None => match without_prefix(text, "switch:"@) {
                Some(index) => match index_of_text(index) {
                    Some(team_index) => Some(Some(PlayerAction::SwitchPokemon { team_index })),
                    None => None,
                },
                None => None,
            },
        }
    }
}

/// The pending-action slot that an attribute holds: an empty one where the
/// item has no such attribute, nothing where the attribute is not the text
/// of a slot.
pub open spec fn slot_of(item: ItemModel, name: Seq<char>) -> Option<Option<PlayerAction>> {
    match attribute(item, name) {
        None => Some(None),
        Some(ValueModel::S(text)) => text_slot(text),
        Some(_) => None,
    }
}

/// The version that an item holds: 0 where it has no attribute `version`,
/// nothing where the attribute is not an unsigned number of at most 64
/// bits.
pub open spec fn version_of(item: ItemModel) -> Option<u64> {
    match attribute(item, "version"@) {
        None => Some(0),
        Some(ValueModel::N(text)) => parsed_u64(text),
        Some(_) => None,
    }
}

/// What an item is read as, or the reason why it cannot be read. The
/// attributes are looked at in the order in which they are written here,
/// and the first that is missing or malformed gives the reason. An item
/// without a turn log is read as one with none, and an item without a
/// pending-action slot as one whose slot is empty.
pub open spec fn item_as_record(item: ItemModel) -> Result<StoredItemModel, Seq<char>> {
    match text_of(item, "battle_id"@) {
        None => Err("Missing battle_id"@),
        Some(id_text) => match parsed_uuid(id_text) {
            Err(reason) => Err("Invalid battle_id format: "@ + reason),
            Ok(battle_id) => match text_of(item, "player1_id"@) {
                None => Err("Missing player1_id"@),
                Some(player1_id) => match text_of(item, "player2_id"@) {
                    None => Err("Missing player2_id"@),
                    Some(player2_id) => match time_of(item, "created_at"@) {
                        None => Err("Missing or invalid created_at"@),
                        Some(created_at) => match time_of(item, "last_updated"@) {
                            None => Err("Missing or invalid last_updated"@),
                            Some(last_updated) => match text_of(item, "battle_state"@) {
                                None => Err("Missing battle_state"@),
                                Some(battle_state) => match version_of(item) {
                                    None => Err("Invalid version"@),
                                    Some(version) => slots_as_record(
                                        item,
                                        StoredItemModel {
                                            battle_id,
                                            player1_id,
                                            player2_id,
                                            created_at,
                                            last_updated,
                                            version,
                                            battle_state,
                                            action_queue: Seq::empty(),
                                            turn_logs: text_of(item, "turn_logs"@),
                                        },
                                    ),
                                },
                            },
                        },
                    },
                },
            },
        },
    }
}

/// The record `read`, with the pending-action slots that the item holds,
/// or the reason why a slot cannot be read.
pub open spec fn slots_as_record(item: ItemModel, read: StoredItemModel) -> Result<
    StoredItemModel,
    Seq<char>,
> {
    match slot_of(item, "player1_action"@) {
        None => Err("Invalid player1_action"@),
        Some(first) => match slot_of(item, "player2_action"@) {
            None => Err("Invalid player2_action"@),
            Some(second) => Ok(StoredItemModel { action_queue: seq![first, second], ..read }),
        },
    }
}

/// The item that a record is stored as, given the serialisation of its
/// turn log.
pub open spec fn record_as_item(
    battle_id: u128,
    player1_id: Seq<char>,
    player2_id: Seq<char>,
    created_at: i64,
    last_updated: i64,
    version: u64,
    battle_state: Seq<char>,
    action_queue: Seq<Option<PlayerAction>>,
    turn_logs: Seq<char>,
) -> ItemModel
    recommends
        action_queue.len() == 2,
{
    seq![
        ("battle_id"@, ValueModel::S(hyphenated(battle_id))),
        ("player1_id"@, ValueModel::S(player1_id)),
        ("player2_id"@, ValueModel::S(player2_id)),
        ("created_at"@, ValueModel::N(signed_decimal(created_at as int))),
        ("last_updated"@, ValueModel::N(signed_decimal(last_updated as int))),
        ("battle_state"@, ValueModel::S(battle_state)),
        ("turn_logs"@, ValueModel::S(turn_logs)),
        ("version"@, ValueModel::N(decimal(version as nat))),
        ("player1_action"@, ValueModel::S(slot_text(action_queue[0]))),
        ("player2_action"@, ValueModel::S(slot_text(action_queue[1]))),
    ]
}

/// The value of the first attribute of an item with the given name.
pub fn get<'a>(item: &'a Vec<Attribute>, name: &str) -> (r: Option<&'a AttributeValue>)
    ensures
        match r {
            Some(value) => Some(value@),
            None => None,
        } == attribute(item.deep_view(), name@),
{
    let wanted = String::from_str(name);
    let ghost all = item.deep_view();
    let mut i: usize = 0;
    assert(all.skip(0) =~= all);
    while i < item.len()
        invariant
            i <= item.len(),
            all == item.deep_view(),
            wanted@ == name@,
            attribute(all, name@) == attribute(all.skip(i as int), name@),
        decreases item.len() - i,
    {
        proof {
            assert(all.skip(i as int)[0] == item[i as int]@);
            assert(all.skip(i as int).drop_first() =~= all.skip(i + 1));
        }
        if item[i].name == wanted {
            return Some(&item[i].value);
        }
        i += 1;
    }
    assert(all.skip(i as int).len() == 0);
    None
}

/// The text of an attribute.
pub fn get_text(item: &Vec<Attribute>, name: &str) -> (r: Option<String>)
    ensures
        r.deep_view() == text_of(item.deep_view(), name@),
{
    match get(item, name) {
        Some(AttributeValue::S(text)) => Some(text.clone()),
        _ => None,
    }
}

/// The time that an attribute holds.
fn get_time(item: &Vec<Attribute>, name: &str) -> (r: Option<i64>)
    ensures
        r == time_of(item.deep_view(), name@),
{
    match get(item, name) {
        Some(AttributeValue::N(text)) => parse_i64(text.as_str()),
        _ => None,
    }
}

/// The index that a text writes.
fn read_index(text: &str) -> (r: Option<usize>)
    ensures
        r == index_of_text(text@),
{
    match parse_u64(text) {
        Some(n) => if n <= usize::MAX as u64 {
            Some(n as usize)
        } else {
            None
        },
        None => None,
    }
}

/// The pending-action slot that a text stands for.
pub fn read_slot(text: &str) -> (r: Option<Option<PlayerAction>>)
    ensures
        r == text_slot(text@),
{
    let given = String::from_str(text);
    if given == String::from_str("none") {
        return Some(None);
    }
    if given == String::from_str("forfeit") {
        return Some(Some(PlayerAction::Forfeit));
    }
    match strip_prefix(text, "move:") {
        Some(index) => match read_index(index) {
            Some(move_index) => Some(Some(PlayerAction::UseMove { move_index })),
            None => None,
        },
        None => match strip_prefix(text, "switch:") {
            Some(index) => match read_index(index) {
                Some(team_index) => Some(Some(PlayerAction::SwitchPokemon { team_index })),
                None => None,
            },
            None => None,
        },
    }
}

/// The text that a pending-action slot is stored as.
pub fn write_slot(slot: &Option<PlayerAction>) -> (r: String)
    ensures
        r@ == slot_text(*slot),
{
    match slot {
        None => String::from_str("none"),
        Some(PlayerAction::Forfeit) => String::from_str("forfeit"),
        Some(PlayerAction::UseMove { move_index }) => join2(
            "move:",
            decimal_string(*move_index as u64).as_str(),
        ),
        Some(PlayerAction::SwitchPokemon { team_index }) => join2(
            "switch:",
            decimal_string(*team_index as u64).as_str(),
        ),
    }
}

/// The pending-action slot that an attribute holds.
fn get_slot(item: &Vec<Attribute>, name: &str) -> (r: Option<Option<PlayerAction>>)
    ensures
        r == slot_of(item.deep_view(), name@),
{
    match get(item, name) {
        None => Some(None),
        Some(AttributeValue::S(text)) => read_slot(text.as_str()),
        Some(_) => None,
    }
}

/// Convert a stored item to the fields of a record.
pub fn item_to_battle(item: &Vec<Attribute>) -> (r: Result<StoredItem, String>)
    ensures
        match r {
            Ok(record) => Ok(record@),
            Err(reason) => Err(reason@),
        } == item_as_record(item.deep_view()),
{
    let id_text = match get_text(item, "battle_id") {
        Some(text) => text,
        None => { return Err(String::from_str("Missing battle_id")); },
    };
    let battle_id = match BattleId::parse(id_text.as_str()) {
        Ok(id) => id,
        Err(reason) => {
            return Err(join2("Invalid battle_id format: ", reason.as_str()));
        },
    };
    let player1_id = match get_text(item, "player1_id") {
        Some(text) => PlayerId(text),
        None => { return Err(String::from_str("Missing player1_id")); },
    };
    let player2_id = match get_text(item, "player2_id") {
        Some(text) => PlayerId(text),
        None => { return Err(String::from_str("Missing player2_id")); },
    };
    let created_at = match get_time(item, "created_at") {
        Some(time) => time,
        None => { return Err(String::from_str("Missing or invalid created_at")); },
    };
    let last_updated = match get_time(item, "last_updated") {
        Some(time) => time,
        None => { return Err(String::from_str("Missing or invalid last_updated")); },
    };
    let battle_state = match get_text(item, "battle_state") {
        Some(text) => text,
        None => { return Err(String::from_str("Missing battle_state")); },
    };
    let version = match get(item, "version") {
        None => Some(0),
        Some(AttributeValue::N(text)) => parse_u64(text.as_str()),
        Some(_) => None,
    };
    let version = match version {
        Some(v) => v,
        None => { return Err(String::from_str("Invalid version")); },
    };
    let first = match get_slot(item, "player1_action") {
        Some(slot) => slot,
        None => { return Err(String::from_str("Invalid player1_action")); },
    };
    let second = match get_slot(item, "player2_action") {
        Some(slot) => slot,
        None => { return Err(String::from_str("Invalid player2_action")); },
    };
    let turn_logs = get_text(item, "turn_logs");
    let action_queue = [first, second];
    assert(action_queue@ =~= seq![first, second]);
    Ok(
        StoredItem {
            battle_id,
            player1_id,
            player2_id,
            created_at,
            last_updated,
            version,
            battle_state,
            action_queue,
            turn_logs,
        },
    )
}

/// An attribute that holds a text.
fn text_attribute(name: &str, text: String) -> (r: Attribute)
    ensures
        r@ == (name@, ValueModel::S(text@)),
{
    Attribute { name: String::from_str(name), value: AttributeValue::S(text) }
}

/// An attribute that holds a number.
fn number_attribute(name: &str, text: String) -> (r: Attribute)
    ensures
        r@ == (name@, ValueModel::N(text@)),
{
    Attribute { name: String::from_str(name), value: AttributeValue::N(text) }
}

/// What the item of a record is read back as.
pub open spec fn record_read_back(
    battle_id: u128,
    player1_id: Seq<char>,
    player2_id: Seq<char>,
    created_at: i64,
    last_updated: i64,
    version: u64,
    battle_state: Seq<char>,
    action_queue: Seq<Option<PlayerAction>>,
    turn_logs: Seq<char>,
) -> StoredItemModel {
    StoredItemModel {
        battle_id,
        player1_id,
        player2_id,
        created_at,
        last_updated,
        version,
        battle_state,
        action_queue,
        turn_logs: Some(turn_logs),
    }
}

/// Convert a record to the item that it is stored as. `turn_logs` is the
/// serialisation of the record's turn log. What is written is read back
/// unchanged by [`item_to_battle`], the pending action of each side
/// included.
pub fn battle_to_item(battle: &StoredBattle, turn_logs: String) -> (item: Vec<Attribute>)
    ensures
        item.deep_view() == record_as_item(
            battle.battle_id.0,
            battle.player1_id@,
            battle.player2_id@,
            battle.created_at,
            battle.last_updated,
            battle.version,
            battle.battle_state.engine_data@,
            battle.battle_state.action_queue@,
            turn_logs@,
        ),
        item_as_record(item.deep_view()) == Ok::<StoredItemModel, Seq<char>>(
            record_read_back(
                battle.battle_id.0,
                battle.player1_id@,
                battle.player2_id@,
                battle.created_at,
                battle.last_updated,
                battle.version,
                battle.battle_state.engine_data@,
                battle.battle_state.action_queue@,
                turn_logs@,
            ),
        ),
{
    let mut item: Vec<Attribute> = Vec::new();
    item.push(text_attribute("battle_id", battle.battle_id.to_string()));
    item.push(text_attribute("player1_id", battle.player1_id.0.clone()));
    item.push(text_attribute("player2_id", battle.player2_id.0.clone()));
    item.push(number_attribute("created_at", i64_to_string(battle.created_at)));
    item.push(number_attribute("last_updated", i64_to_string(battle.last_updated)));
    item.push(text_attribute("battle_state", battle.battle_state.engine_data.clone()));
    item.push(text_attribute("turn_logs", turn_logs));
    item.push(number_attribute("version", decimal_string(battle.version)));
    let queue = &battle.battle_state.action_queue;
    item.push(text_attribute("player1_action", write_slot(&queue[0])));
    item.push(text_attribute("player2_action", write_slot(&queue[1])));
    let ghost written = record_as_item(
        battle.battle_id.0,
        battle.player1_id@,
        battle.player2_id@,
        battle.created_at,
        battle.last_updated,
        battle.version,
        battle.battle_state.engine_data@,
        battle.battle_state.action_queue@,
        turn_logs@,
    );
    assert(item.deep_view() =~= written);
    proof {
        lemma_names_differ();
        lemma_attribute_at(written, 0, "battle_id"@);
        lemma_attribute_at(written, 1, "player1_id"@);
        lemma_attribute_at(written, 2, "player2_id"@);
        lemma_attribute_at(written, 3, "created_at"@);
        lemma_attribute_at(written, 4, "last_updated"@);
        lemma_attribute_at(written, 5, "battle_state"@);
        lemma_attribute_at(written, 6, "turn_logs"@);
        lemma_attribute_at(written, 7, "version"@);
        lemma_attribute_at(written, 8, "player1_action"@);
        lemma_attribute_at(written, 9, "player2_action"@);
        lemma_slot_is_read_back(battle.battle_state.action_queue[0]);
        lemma_slot_is_read_back(battle.battle_state.action_queue[1]);
        assert(battle.battle_state.action_queue@ =~= seq![
            battle.battle_state.action_queue[0],
            battle.battle_state.action_queue[1],
        ]);
        lemma_i64_round_trip(battle.created_at);
        lemma_i64_round_trip(battle.last_updated);
        lemma_u64_round_trip(battle.version);
    }
    item
}

/// The attribute names of a stored item differ from one another.
proof fn lemma_names_differ()
    ensures
        "battle_id"@ != "player1_id"@,
        "battle_id"@ != "player2_id"@,
        "battle_id"@ != "created_at"@,
        "battle_id"@ != "last_updated"@,
        "battle_id"@ != "battle_state"@,
        "battle_id"@ != "turn_logs"@,
        "battle_id"@ != "version"@,
        "player1_id"@ != "player2_id"@,
        "player1_id"@ != "created_at"@,
        "player1_id"@ != "last_updated"@,
        "player1_id"@ != "battle_state"@,
        "player1_id"@ != "turn_logs"@,
        "player1_id"@ != "version"@,
        "player2_id"@ != "created_at"@,
        "player2_id"@ != "last_updated"@,
        "player2_id"@ != "battle_state"@,
        "player2_id"@ != "turn_logs"@,
        "player2_id"@ != "version"@,
        "created_at"@ != "last_updated"@,
        "created_at"@ != "battle_state"@,
        "created_at"@ != "turn_logs"@,
        "created_at"@ != "version"@,
        "last_updated"@ != "battle_state"@,
        "last_updated"@ != "turn_logs"@,
        "last_updated"@ != "version"@,
        "battle_state"@ != "turn_logs"@,
        "battle_state"@ != "version"@,
        "turn_logs"@ != "version"@,
        "player1_action"@.len() == 14,
        "player2_action"@.len() == 14,
        "player1_action"@ != "player2_action"@,
        "battle_id"@.len() == 9,
        "player1_id"@.len() == 10,
        "player2_id"@.len() == 10,
        "created_at"@.len() == 10,
        "last_updated"@.len() == 12,
        "battle_state"@.len() == 12,
        "turn_logs"@.len() == 9,
        "version"@.len() == 7,
{
    reveal_strlit("battle_id");
    reveal_strlit("player1_id");
    reveal_strlit("player2_id");
    reveal_strlit("created_at");
    reveal_strlit("last_updated");
    reveal_strlit("battle_state");
    reveal_strlit("turn_logs");
    reveal_strlit("version");
    reveal_strlit("player1_action");
    reveal_strlit("player2_action");
    assert("player1_action"@[6] != "player2_action"@[6]);
    assert("battle_id"@.len() == 9 && "turn_logs"@.len() == 9 && "version"@.len() == 7);
    assert("player1_id"@.len() == 10 && "player2_id"@.len() == 10 && "created_at"@.len() == 10);
    assert("last_updated"@.len() == 12 && "battle_state"@.len() == 12);
    assert("battle_id"@[0] != "turn_logs"@[0]);
    assert("player1_id"@[6] != "player2_id"@[6]);
    assert("player1_id"@[0] != "created_at"@[0]);
    assert("player2_id"@[0] != "created_at"@[0]);
    assert("last_updated"@[0] != "battle_state"@[0]);
}

/// A pending-action slot that is written and then read is the same slot.
pub proof fn lemma_slot_is_read_back(slot: Option<PlayerAction>)
    ensures
        text_slot(slot_text(slot)) == Some(slot),
{
    reveal_strlit("none");
    reveal_strlit("forfeit");
    reveal_strlit("move:");
    reveal_strlit("switch:");
    let text = slot_text(slot);
    match slot {
        None => {},
        Some(PlayerAction::Forfeit) => {
            assert("forfeit"@.len() != "none"@.len());
        },
        Some(PlayerAction::UseMove { move_index }) => {
            let index = decimal(move_index as nat);
            assert(text[0] == 'm');
            assert("none"@[0] == 'n' && "forfeit"@[0] == 'f');
            assert(text.subrange(0, 5) =~= "move:"@);
            assert(text.subrange(5, text.len() as int) =~= index);
            lemma_u64_round_trip(move_index as u64);
        },
        Some(PlayerAction::SwitchPokemon { team_index }) => {
            let index = decimal(team_index as nat);
            assert(text[0] == 's');
            assert("none"@[0] == 'n' && "forfeit"@[0] == 'f');
            assert(text.len() >= 5 ==> text.subrange(0, 5)[0] == 's');
            assert("move:"@[0] == 'm');
            assert(text.subrange(0, 7) =~= "switch:"@);
            assert(text.subrange(7, text.len() as int) =~= index);
            lemma_u64_round_trip(team_index as u64);
        },
    }
}

/// An attribute is found at the first position that has its name.
proof fn lemma_attribute_at(item: ItemModel, k: int, name: Seq<char>)
    requires
        0 <= k < item.len(),
        item[k].0 == name,
        forall|j: int| 0 <= j < k ==> item[j].0 != name,
    ensures
        attribute(item, name) == Some(item[k].1),
    decreases k,
{
    if k > 0 {
        lemma_attribute_at(item.drop_first(), k - 1, name);
    }
}

} // verus!
