use vstd::prelude::*;

verus! {

/// The latest body selected by clicking its rendered mesh.
#[derive(Clone, Debug)]
pub struct MeshPickSelection {
    pub entity: Option<u64>,
    pub name: Option<String>,
}

impl MeshPickSelection {
    /// Nothing picked at first.
    pub fn new() -> (selection: MeshPickSelection)
        ensures
            selection.entity.is_none(),
            selection.name.is_none(),
    {
        MeshPickSelection { entity: None, name: None }
    }

    /// Records a click on a rendered mesh: a physics body (collider and rigid body)
    /// becomes the selection with its name; a click on scenery changes nothing.
    pub fn record_click(&mut self, entity: u64, physics_body: bool, name: String)
        ensures
            physics_body ==> final(self).entity == Some(entity) && final(self).name.is_some()
                && final(self).name.unwrap()@ == name@,
            !physics_body ==> final(self).entity == old(self).entity && final(self).name
                == old(self).name,
    {
        if !physics_body {
            return;
        }
        self.entity = Some(entity);
        self.name = Some(name);
    }
}

} // verus!
