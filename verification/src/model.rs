//! The models among which the user can choose.

use crate::text::join;
#[allow(unused_imports)]
use crate::text::{joined, texts};
use vstd::prelude::*;

verus! {

/// A model.
#[derive(Debug)]
pub struct ModelInfo {
    pub model_id: String,
    pub model_name: Option<String>,
}

impl ModelInfo {
    /// The name by which the model is shown: its id, where it has no name.
    pub open spec fn label(self) -> Seq<char> {
        match self.model_name {
            Some(name) => name@,
            None => self.model_id@,
        }
    }
}

/// The models that can be had, and the one that is used unless another is chosen.
#[derive(Debug)]
pub struct ModelCatalog {
    pub models: Vec<ModelInfo>,
    pub default_model: ModelInfo,
}

/// The labels of the models.
pub open spec fn labels(models: Seq<ModelInfo>) -> Seq<Seq<char>> {
    models.map_values(|m: ModelInfo| m.label())
}

/// The labels of the models, with a comma between each two of them.
pub fn available_models(models: &Vec<ModelInfo>) -> (list: String)
    ensures
        list@ == joined(labels(models@), ", "@),
{
    let mut names: Vec<String> = Vec::new();
    let mut i: usize = 0;
    while i < models.len()
        invariant
            i <= models.len(),
            texts(names@) == labels(models@).take(i as int),
        decreases models.len() - i,
    {
        let name: String = match &models[i].model_name {
            Some(name) => name.clone(),
            None => models[i].model_id.clone(),
        };
        let ghost earlier = names@;
        assert(labels(models@)[i as int] == name@);
        names.push(name);
        assert(texts(names@) == texts(earlier).push(labels(models@)[i as int]));
        assert(labels(models@).take(i + 1) == labels(models@).take(i as int).push(
            labels(models@)[i as int],
        ));
        i = i + 1;
    }
    assert(labels(models@).take(models.len() as int) == labels(models@));
    join(&names, ", ")
}

/// The list of models joins, with a comma and a blank between each two, the name of each
/// model, or its id where it has none, in the order of the models.
pub proof fn law_models_are_listed_by_name_or_id(models: Vec<ModelInfo>, list: String)
    requires
        call_ensures(available_models, (&models,), list),
    ensures
        exists|names: Seq<Seq<char>>|
            names.len() == models@.len() && (forall|i: int|
                0 <= i < names.len() ==> #[trigger] names[i] == (if models@[i].model_name is Some {
                    models@[i].model_name->0@
                } else {
                    models@[i].model_id@
                })) && list@ == #[trigger] joined(names, ", "@),
{
    let names = labels(models@);
    assert(list@ == joined(names, ", "@));
}

} // verus!
