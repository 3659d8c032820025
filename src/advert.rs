use vstd::prelude::*;

verus! {

/// Identifier of the service that the appliance advertises.
pub const SERVICE_ID: u128 = 0x0000cdd000001000800000805f9b34fb;

/// One entry of an advertising report.
pub enum EirEntry {
    /// The 128-bit service identifiers that the device lists.
    ServiceIds(Vec<u128>),
    /// Any entry that does not list service identifiers.
    Other,
}

/// A device recognised as the appliance by its advertising report.
#[derive(Debug)]
pub struct Grainfather {}

/// Why an advertising report does not identify the appliance.
#[derive(Debug, Clone, Copy, PartialEq, Eq, Structural)]
pub enum GrainfatherConvertError {
    ServiceIdNotFound,
}

/// The entry lists the appliance's service.
pub open spec fn lists_service(e: EirEntry) -> bool {
    match e {
        EirEntry::ServiceIds(ids) => ids@.contains(SERVICE_ID),
        EirEntry::Other => false,
    }
}

/// Some entry of the report lists the appliance's service.
pub open spec fn advertises_service(report: Seq<EirEntry>) -> bool {
    exists|i: int| 0 <= i < report.len() && #[trigger] lists_service(report[i])
}

impl Grainfather {
    /// Recognises the appliance when its report lists the appliance's service.
    pub fn try_from(report: &Vec<EirEntry>) -> (r: Result<Grainfather, GrainfatherConvertError>)
        ensures
            r is Ok <==> advertises_service(report@),
            r matches Err(e) ==> e == GrainfatherConvertError::ServiceIdNotFound,
    {
        let mut i: usize = 0;
        while i < report.len()
            invariant
                i <= report@.len(),
                forall|a: int| 0 <= a < i ==> !#[trigger] lists_service(report@[a]),
            decreases report@.len() - i,
        {
            if let EirEntry::ServiceIds(ids) = &report[i] {
                let mut j: usize = 0;
                while j < ids.len()
                    invariant
                        i < report@.len(),
                        report@[i as int] matches EirEntry::ServiceIds(v) && v@ == ids@,
                        j <= ids@.len(),
                        forall|b: int| 0 <= b < j ==> #[trigger] ids@[b] != SERVICE_ID,
                    decreases ids@.len() - j,
                {
                    if ids[j] == SERVICE_ID {
                        assert(lists_service(report@[i as int]));
                        return Ok(Grainfather {});
                    }
                    j = j + 1;
                }
            }
            assert(!lists_service(report@[i as int]));
            i = i + 1;
        }
        Err(GrainfatherConvertError::ServiceIdNotFound)
    }
}

} // verus!
