//! The manifest of an actor.
use vstd::prelude::*;
use vstd::string::StringExecFns;
use crate::capabilities::HTTP_INTERFACE;

verus! {

#[verifier::external_type_specification]
#[verifier::external_body]
pub struct ExPathBuf(std::path::PathBuf);

/// What a manifest says of an actor. It is read once and not changed after.
#[derive(Debug)]
pub struct ActorConfig {
    /// The actor's name.
    pub name: String,
    /// Where the compiled component lies.
    pub component_path: std::path::PathBuf,
    /// The names of the interfaces that the component declares.
    pub interfaces: Vec<String>,
    /// The port of the HTTP bridge, where there is one.
    pub http_port: Option<u16>,
}

impl ActorConfig {
    /// Whether `interface` is among the declared interface names.
    pub open spec fn declares(&self, interface: Seq<char>) -> bool {
        exists|i: int| 0 <= i < self.interfaces@.len() && (#[trigger] self.interfaces@[i])@ == interface
    }

    /// Whether the manifest declares the interface of the given name.
    pub fn supports(&self, interface_name: &str) -> (declared: bool)
        ensures
            declared == self.declares(interface_name@),
    {
        let wanted = String::from_str(interface_name);
        let mut i: usize = 0;
        while i < self.interfaces.len()
            invariant
                i <= self.interfaces@.len(),
                wanted@ == interface_name@,
                forall|k: int| 0 <= k < i ==> (#[trigger] self.interfaces@[k])@ != interface_name@,
            decreases self.interfaces@.len() - i,
        {
            if self.interfaces[i] == wanted {
                return true;
            }
            i = i + 1;
        }
        false
    }

    /// Whether the manifest declares the HTTP interface.
    pub fn supports_http(&self) -> (declared: bool)
        ensures
            declared == self.declares(HTTP_INTERFACE@),
    {
        self.supports(HTTP_INTERFACE)
    }
}

} // verus!
