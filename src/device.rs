use vstd::prelude::*;

verus! {

/// A service advertised by a device.
#[derive(Debug)]
pub struct Service {
    pub service_id: String,
    pub service_type: String,
}

pub ghost struct ServiceView {
    pub service_id: Seq<char>,
    pub service_type: Seq<char>,
}

impl View for Service {
    type V = ServiceView;

    open spec fn view(&self) -> ServiceView {
        ServiceView { service_id: self.service_id@, service_type: self.service_type@ }
    }
}

/// A resolved device: built from one search response's location, with the
/// friendly name and the services of its description, in document order.
#[derive(Debug)]
pub struct Device {
    pub friendly_name: String,
    pub url: String,
    pub services: Vec<Service>,
}

pub ghost struct DeviceView {
    pub friendly_name: Seq<char>,
    pub url: Seq<char>,
    pub services: Seq<ServiceView>,
}

impl View for Device {
    type V = DeviceView;

    open spec fn view(&self) -> DeviceView {
        DeviceView {
            friendly_name: self.friendly_name@,
            url: self.url@,
            services: self.services@.map_values(|s: Service| s@),
        }
    }
}

impl Service {
    pub fn new(service_id: String, service_type: String) -> (r: Service)
        ensures
            r.service_id == service_id,
            r.service_type == service_type,
    {
        Service { service_id, service_type }
    }

    pub fn service_id(&self) -> (r: &str)
        ensures
            r@ == self.service_id@,
    {
        self.service_id.as_str()
    }

    pub fn service_type(&self) -> (r: &str)
        ensures
            r@ == self.service_type@,
    {
        self.service_type.as_str()
    }
}

impl Device {
    pub fn friendly_name(&self) -> (r: &str)
        ensures
            r@ == self.friendly_name@,
    {
        self.friendly_name.as_str()
    }

    pub fn url(&self) -> (r: &str)
        ensures
            r@ == self.url@,
    {
        self.url.as_str()
    }

    pub fn services(&self) -> (r: &Vec<Service>)
        ensures
            r == &self.services,
    {
        &self.services
    }
}

} // verus!
