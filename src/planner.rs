//! The conversation that every session begins with.
use vstd::prelude::*;
use crate::chat::{ChatContent, Part, PartView, Role, Turn};

verus! {

/// The instructions that make the model a concierge for places to eat.
pub const SYSTEM_PROMPT: &'static str = "あなたは、適切な食事場所を提案するコンシェルジュです。
                    渋谷スクランブルスクエアとAbema Towersにオフィスを持つ社員から、
                    いくつかのやりとりで食べたいものを聞き出し、社員の今いるオフィスの場所から近く適切な食事場所を提案してください。
                    ただし、下記条件を踏まえて提案してください。
                     - まず初めに、社員のオフィスの場所を聞き出してください
                     - 社員の好みに合わせて提案してください
                     - 社員の返答は入力されます
                     - 提案には、評価やレビュー数を記載してください
                     - 営業時間内かつ、店舗での飲食が可能なものだけを提案してください
                     - 検索を行ったもの以外は提案しないでください
                     - 提案できるものがない時は、その旨を伝えてください
                     - 社員が提案を受け入れた場合は、住所を伝えてください
                     - 対応を終了する際は必ず、「またお気軽にお聞きください。」と伝えてください";

/// The model's acknowledgement of [`SYSTEM_PROMPT`].
pub const ACKNOWLEDGEMENT: &'static str = "わかりました。";

/// The two turns that open every conversation: the instructions as a user
/// turn, then the model's acknowledgement.
pub fn init_restaurant_planner() -> (r: Vec<ChatContent>)
    ensures
        r@.len() == 2,
        r@[0]@ == (Turn { role: Role::USER, parts: seq![PartView::Text(SYSTEM_PROMPT@)] }),
        r@[1]@ == (Turn { role: Role::MODEL, parts: seq![PartView::Text(ACKNOWLEDGEMENT@)] }),
{
    let instructions = ChatContent {
        role: Role::USER,
        parts: vec![Part::Text(String::from_str(SYSTEM_PROMPT))],
    };
    let acknowledgement = ChatContent {
        role: Role::MODEL,
        parts: vec![Part::Text(String::from_str(ACKNOWLEDGEMENT))],
    };
    let r = vec![instructions, acknowledgement];
    assert(r@[0]@.parts =~= seq![PartView::Text(SYSTEM_PROMPT@)]);
    assert(r@[1]@.parts =~= seq![PartView::Text(ACKNOWLEDGEMENT@)]);
    r
}

} // verus!
