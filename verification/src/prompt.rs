//! The prompt of the synthesis agent: the ingredients at hand and a snapshot
//! of the store, written out as text.

use vstd::prelude::*;
use crate::facts::{food_facts, FoodPrefFact, StoreDietTypeArgsAux, StoreFoodPrefArgsAux};
use crate::store::{Snapshot, StoreView};
use crate::text::{
    joined, lemma_joined_mentions_part, lemma_mentions_middle, lemma_mentions_transitive, mentions,
};

verus! {

/// One diet declaration as text. The diet is written by its name.
pub open spec fn diet_text(diet: StoreDietTypeArgsAux) -> Seq<char> {
    "StoreDietTypeArgsAux { diet_type: \""@ + diet.diet_type.spec_name() + "\", follows: "@ + (
    if diet.follows {
        "true"@
    } else {
        "false"@
    }) + " }"@
}

/// One food preference as text. The dish is written as it is, between
/// double quotes; the kind is written by its name.
pub open spec fn pref_text(pref: FoodPrefFact) -> Seq<char> {
    "StoreFoodPrefArgsAux { dish: \""@ + pref.dish + "\", kind: \""@ + pref.kind.spec_name()
        + "\" }"@
}

/// The diet declarations as text: in square brackets, in their order.
pub open spec fn diets_text(diets: Seq<StoreDietTypeArgsAux>) -> Seq<char> {
    "["@ + joined(diets.map_values(|diet: StoreDietTypeArgsAux| diet_text(diet)), ", "@) + "]"@
}

/// The food preferences as text: in square brackets, in their order.
pub open spec fn prefs_text(prefs: Seq<FoodPrefFact>) -> Seq<char> {
    "["@ + joined(prefs.map_values(|pref: FoodPrefFact| pref_text(pref)), ", "@) + "]"@
}

/// The prompt of an extraction agent: the conversation, under one line that
/// says what it is.
pub open spec fn extraction_prompt(conversation: Seq<char>) -> Seq<char> {
    "Here is the conversation to analyze:\n "@ + conversation
}

/// The prompt of the synthesis agent: the ingredients, then every diet
/// declaration of the store, then every food preference.
pub open spec fn synthesis_prompt(ingredients: Seq<char>, store: StoreView) -> Seq<char> {
    "\n    Ingredients: "@ + ingredients + "\n\n    Diets: "@ + diets_text(store.diets)
        + "\n\n    Food Preferences: "@ + prefs_text(store.food_prefs) + "\n        "@
}

/// The text of a food preference names its dish and its kind.
pub proof fn lemma_pref_text_mentions(pref: FoodPrefFact)
    ensures
        mentions(pref_text(pref), pref.dish),
        mentions(pref_text(pref), pref.kind.spec_name()),
{
    let open = "StoreFoodPrefArgsAux { dish: \""@;
    let between = "\", kind: \""@;
    let close = "\" }"@;
    let kind = pref.kind.spec_name();
    assert(pref_text(pref) =~= open + pref.dish + (between + kind + close));
    lemma_mentions_middle(open, pref.dish, between + kind + close);
    lemma_mentions_middle(open + pref.dish + between, kind, close);
}

/// The text of a diet declaration names its diet.
pub proof fn lemma_diet_text_mentions(diet: StoreDietTypeArgsAux)
    ensures
        mentions(diet_text(diet), diet.diet_type.spec_name()),
{
    let open = "StoreDietTypeArgsAux { diet_type: \""@;
    let rest = "\", follows: "@ + (if diet.follows {
        "true"@
    } else {
        "false"@
    }) + " }"@;
    assert(diet_text(diet) =~= open + diet.diet_type.spec_name() + rest);
    lemma_mentions_middle(open, diet.diet_type.spec_name(), rest);
}

/// The text of the food preferences names the dish and the kind of each.
pub proof fn lemma_prefs_text_mentions(prefs: Seq<FoodPrefFact>, index: int)
    requires
        0 <= index < prefs.len(),
    ensures
        mentions(prefs_text(prefs), prefs[index].dish),
        mentions(prefs_text(prefs), prefs[index].kind.spec_name()),
{
    let parts = prefs.map_values(|pref: FoodPrefFact| pref_text(pref));
    let one = pref_text(prefs[index]);
    lemma_mentions_middle("["@, joined(parts, ", "@), "]"@);
    lemma_joined_mentions_part(parts, ", "@, index);
    lemma_mentions_transitive(prefs_text(prefs), joined(parts, ", "@), one);
    lemma_pref_text_mentions(prefs[index]);
    lemma_mentions_transitive(prefs_text(prefs), one, prefs[index].dish);
    lemma_mentions_transitive(prefs_text(prefs), one, prefs[index].kind.spec_name());
}

/// The text of the diet declarations names the diet of each.
pub proof fn lemma_diets_text_mentions(diets: Seq<StoreDietTypeArgsAux>, index: int)
    requires
        0 <= index < diets.len(),
    ensures
        mentions(diets_text(diets), diets[index].diet_type.spec_name()),
{
    let parts = diets.map_values(|diet: StoreDietTypeArgsAux| diet_text(diet));
    let one = diet_text(diets[index]);
    lemma_mentions_middle("["@, joined(parts, ", "@), "]"@);
    lemma_joined_mentions_part(parts, ", "@, index);
    lemma_mentions_transitive(diets_text(diets), joined(parts, ", "@), one);
    lemma_diet_text_mentions(diets[index]);
    lemma_mentions_transitive(diets_text(diets), one, diets[index].diet_type.spec_name());
}

/// The prompt holds the ingredients, the text of the diet declarations and
/// the text of the food preferences.
pub proof fn lemma_prompt_mentions_its_parts(ingredients: Seq<char>, store: StoreView)
    ensures
        mentions(synthesis_prompt(ingredients, store), ingredients),
        mentions(synthesis_prompt(ingredients, store), diets_text(store.diets)),
        mentions(synthesis_prompt(ingredients, store), prefs_text(store.food_prefs)),
{
    let prompt = synthesis_prompt(ingredients, store);
    let head = "\n    Ingredients: "@;
    let to_diets = "\n\n    Diets: "@;
    let to_prefs = "\n\n    Food Preferences: "@;
    let tail = "\n        "@;
    let diets = diets_text(store.diets);
    let prefs = prefs_text(store.food_prefs);
    assert(prompt =~= head + ingredients + (to_diets + diets + to_prefs + prefs + tail));
    lemma_mentions_middle(head, ingredients, to_diets + diets + to_prefs + prefs + tail);
    assert(prompt =~= (head + ingredients + to_diets) + diets + (to_prefs + prefs + tail));
    lemma_mentions_middle(head + ingredients + to_diets, diets, to_prefs + prefs + tail);
    lemma_mentions_middle(head + ingredients + to_diets + diets + to_prefs, prefs, tail);
}

/// The prompt names everything that it is built from, letter for letter: the
/// ingredients, the dish and the kind of every food preference, and the
/// name of every diet declared.
pub proof fn lemma_prompt_mentions_every_fact(ingredients: Seq<char>, store: StoreView)
    ensures
        mentions(synthesis_prompt(ingredients, store), ingredients),
        forall|i: int|
            0 <= i < store.food_prefs.len() ==> mentions(
                synthesis_prompt(ingredients, store),
                (#[trigger] store.food_prefs[i]).dish,
            ) && mentions(
                synthesis_prompt(ingredients, store),
                store.food_prefs[i].kind.spec_name(),
            ),
        forall|i: int|
            0 <= i < store.diets.len() ==> mentions(
                synthesis_prompt(ingredients, store),
                (#[trigger] store.diets[i]).diet_type.spec_name(),
            ),
{
    let prompt = synthesis_prompt(ingredients, store);
    lemma_prompt_mentions_its_parts(ingredients, store);
    assert forall|i: int| 0 <= i < store.food_prefs.len() implies mentions(
        prompt,
        (#[trigger] store.food_prefs[i]).dish,
    ) && mentions(prompt, store.food_prefs[i].kind.spec_name()) by {
        lemma_prefs_text_mentions(store.food_prefs, i);
        lemma_mentions_transitive(
            prompt,
            prefs_text(store.food_prefs),
            store.food_prefs[i].dish,
        );
        lemma_mentions_transitive(
            prompt,
            prefs_text(store.food_prefs),
            store.food_prefs[i].kind.spec_name(),
        );
    }
    assert forall|i: int| 0 <= i < store.diets.len() implies mentions(
        prompt,
        (#[trigger] store.diets[i]).diet_type.spec_name(),
    ) by {
        lemma_diets_text_mentions(store.diets, i);
        lemma_mentions_transitive(
            prompt,
            diets_text(store.diets),
            store.diets[i].diet_type.spec_name(),
        );
    }
}

/// Writes one diet declaration at the end of `out`.
fn write_diet(out: &mut String, diet: &StoreDietTypeArgsAux)
    ensures
        final(out)@ == old(out)@ + diet_text(*diet),
{
    out.append("StoreDietTypeArgsAux { diet_type: \"");
    out.append(diet.diet_type.name());
    out.append("\", follows: ");
    if diet.follows {
        out.append("true");
    } else {
        out.append("false");
    }
    out.append(" }");
}

/// Writes one food preference at the end of `out`.
fn write_pref(out: &mut String, pref: &StoreFoodPrefArgsAux)
    ensures
        final(out)@ == old(out)@ + pref_text(pref@),
{
    out.append("StoreFoodPrefArgsAux { dish: \"");
    out.append(pref.dish.as_str());
    out.append("\", kind: \"");
    out.append(pref.kind.name());
    out.append("\" }");
}

/// Writes the diet declarations at the end of `out`.
fn write_diets(out: &mut String, diets: &Vec<StoreDietTypeArgsAux>)
    ensures
        final(out)@ == old(out)@ + diets_text(diets@),
{
    let ghost parts = diets@.map_values(|diet: StoreDietTypeArgsAux| diet_text(diet));
    out.append("[");
    let mut i: usize = 0;
    while i < diets.len()
        invariant
            i <= diets.len(),
            parts == diets@.map_values(|diet: StoreDietTypeArgsAux| diet_text(diet)),
            out@ == old(out)@ + "["@ + joined(parts.take(i as int), ", "@),
        decreases diets.len() - i,
    {
        if i > 0 {
            out.append(", ");
        }
        write_diet(out, &diets[i]);
        assert(parts.take(i + 1).drop_last() =~= parts.take(i as int));
        i += 1;
    }
    assert(parts.take(i as int) =~= parts);
    out.append("]");
}

/// Writes the food preferences at the end of `out`.
fn write_prefs(out: &mut String, prefs: &Vec<StoreFoodPrefArgsAux>)
    ensures
        final(out)@ == old(out)@ + prefs_text(food_facts(prefs@)),
{
    let ghost parts = food_facts(prefs@).map_values(|pref: FoodPrefFact| pref_text(pref));
    out.append("[");
    let mut i: usize = 0;
    while i < prefs.len()
        invariant
            i <= prefs.len(),
            parts == food_facts(prefs@).map_values(|pref: FoodPrefFact| pref_text(pref)),
            out@ == old(out)@ + "["@ + joined(parts.take(i as int), ", "@),
        decreases prefs.len() - i,
    {
        if i > 0 {
            out.append(", ");
        }
        write_pref(out, &prefs[i]);
        assert(parts.take(i + 1).drop_last() =~= parts.take(i as int));
        i += 1;
    }
    assert(parts.take(i as int) =~= parts);
    out.append("]");
}

/// Writes the prompt of an extraction agent.
pub fn render_extraction_prompt(conversation: &str) -> (prompt: String)
    ensures
        prompt@ == extraction_prompt(conversation@),
{
    let mut prompt = String::from_str("Here is the conversation to analyze:\n ");
    prompt.append(conversation);
    prompt
}

/// Writes the prompt of the synthesis agent from the ingredients and a
/// snapshot of the store.
pub fn render_synthesis_prompt(ingredients: &str, snapshot: &Snapshot) -> (prompt: String)
    ensures
        prompt@ == synthesis_prompt(ingredients@, snapshot@),
{
    let mut prompt = String::from_str("\n    Ingredients: ");
    prompt.append(ingredients);
    prompt.append("\n\n    Diets: ");
    write_diets(&mut prompt, &snapshot.diets);
    prompt.append("\n\n    Food Preferences: ");
    write_prefs(&mut prompt, &snapshot.food_prefs);
    prompt.append("\n        ");
    prompt
}

} // verus!
