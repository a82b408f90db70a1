//! The parts of the InfluxDB access that do not talk to the server: the
//! physical quantities and the query texts.
use crate::utils::text::{decimal, push_decimal};
use vstd::prelude::*;

verus! {

/// Physical Quantity handled by this crate
#[derive(Clone, Copy, Debug, PartialEq, Eq, Structural)]
pub enum PhysicalQuantity {
    Energy,
    Power,
    Battery,
}

impl PhysicalQuantity {
    pub open spec fn unit_spec(self) -> Seq<char> {
        match self {
            PhysicalQuantity::Energy => "kWh"@,
            PhysicalQuantity::Power => "W"@,
            PhysicalQuantity::Battery => "%"@,
        }
    }

    pub open spec fn kind_spec(self) -> Seq<char> {
        match self {
            PhysicalQuantity::Energy => "energy"@,
            PhysicalQuantity::Power => "power"@,
            PhysicalQuantity::Battery => "battery"@,
        }
    }

    /// Physical unit of the data
    pub fn unit(&self) -> (r: &'static str)
        ensures
            r@ == self.unit_spec(),
    {
        match self {
            PhysicalQuantity::Energy => "kWh",
            PhysicalQuantity::Power => "W",
            PhysicalQuantity::Battery => "%",
        }
    }

    /// Kind of data
    pub fn kind(&self) -> (r: &'static str)
        ensures
            r@ == self.kind_spec(),
    {
        match self {
            PhysicalQuantity::Energy => "energy",
            PhysicalQuantity::Power => "power",
            PhysicalQuantity::Battery => "battery",
        }
    }
}

/// Access data of the database.
#[derive(Clone)]
pub struct InfluxDbConfig {
    pub host: String,
    pub db: String,
    pub user: String,
    pub pass: String,
    pub table: String,
}

impl InfluxDbConfig {
    /// The query for the latest `count` values of a sensor.
    pub open spec fn select_query_spec(
        self,
        sensor_id: Seq<char>,
        quantity: PhysicalQuantity,
        count: nat,
    ) -> Seq<char> {
        "SELECT time,value,unit FROM "@ + self.table@ + " WHERE sensor_id='"@ + sensor_id
            + "' AND data='"@ + quantity.kind_spec() + "' ORDER BY DESC LIMIT "@ + decimal(count)
    }

    /// The query for the latest `count` values of a sensor and quantity,
    /// newest first.
    pub fn select_query(&self, sensor_id: &str, quantity: PhysicalQuantity, count: u32) -> (r:
        String)
        ensures
            r@ == self.select_query_spec(sensor_id@, quantity, count as nat),
    {
        let mut q = String::from_str("SELECT time,value,unit FROM ");
        q.append(self.table.as_str());
        q.append(" WHERE sensor_id='");
        q.append(sensor_id);
        q.append("' AND data='");
        q.append(quantity.kind());
        q.append("' ORDER BY DESC LIMIT ");
        push_decimal(&mut q, count as u64);
        q
    }

    /// The URL that runs `query` on the database.
    pub fn query_url(&self, query: &str) -> (r: String)
        ensures
            r@ == self.host@ + "/query?db="@ + self.db@ + "&q="@ + query@,
    {
        let mut u = self.host.clone();
        u.append("/query?db=");
        u.append(self.db.as_str());
        u.append("&q=");
        u.append(query);
        u
    }

    /// The URL that stores values in the database.
    pub fn write_url(&self) -> (r: String)
        ensures
            r@ == self.host@ + "/write?db="@ + self.db@,
    {
        let mut u = self.host.clone();
        u.append("/write?db=");
        u.append(self.db.as_str());
        u
    }

    /// The line that stores a value, up to the value itself: table, tags
    /// `sensor_id`, `unit` and `data`, then the field name `value`.
    pub fn write_line_prefix(&self, sensor_id: &str, quantity: PhysicalQuantity) -> (r: String)
        ensures
            r@ == self.table@ + ",sensor_id="@ + sensor_id@ + ",unit="@ + quantity.unit_spec()
                + ",data="@ + quantity.kind_spec() + " value="@,
    {
        let mut b = self.table.clone();
        b.append(",sensor_id=");
        b.append(sensor_id);
        b.append(",unit=");
        b.append(quantity.unit());
        b.append(",data=");
        b.append(quantity.kind());
        b.append(" value=");
        b
    }
}

} // verus!
